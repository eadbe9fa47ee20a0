//! Client side of an agent communication protocol: line-delimited JSON
//! messages exchanged with a child agent process, the correlation of
//! responses with the requests that caused them, and the conversation
//! sessions the exchange drives.

pub mod client;
pub mod config;
pub mod extension;
pub mod json;
pub mod model;
pub mod named;
pub mod protocol;
pub mod session;
pub mod text;
pub mod ui;
