[package]
name = "zed_acp"
version = "0.1.0"
edition = "2021"
publish = false

[dependencies]
chrono = { version = "0.4", features = ["serde"] }
serde = { version = "1", features = ["derive"] }
serde_json = "1"
thiserror = "1"
tokio = { version = "1", features = ["rt", "sync", "time", "macros"] }
uuid = { version = "1", features = ["v4"] }
zed_extension_api = "*"
