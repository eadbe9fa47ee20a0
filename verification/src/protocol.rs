//! The wire model: every message and payload exchanged with the agent, and
//! how each is written as JSON and read back.

pub mod codec;
pub mod initialize;
pub mod message;
pub mod new_session;
pub mod prompt;
pub mod update;

pub use codec::Wire;
pub use initialize::{
    ClientCapabilities, ClientCapabilitiesView, ClientInfo, ClientInfoView, InitializeRequest,
    InitializeRequestView, InitializeResponse, InitializeResponseView, ServerCapabilities,
    ServerCapabilitiesView, ServerInfo, ServerInfoView,
};
pub use message::{
    ACPError, ACPErrorView, ACPMessage, ACPMessageView, MessageId, MessageIdView, ResponseResult,
    ResponseResultView,
};
pub use new_session::{
    LoadSessionRequest, LoadSessionRequestView, LoadSessionResponse, LoadSessionResponseView,
    McpServer, McpServerConfig, McpServerConfigView, McpServerView, ModeInfo, ModeInfoView,
    ModelInfo, ModelInfoView, ModelsInfo, ModelsInfoView, ModesInfo, ModesInfoView,
    NewSessionRequest, NewSessionRequestView, NewSessionResponse, NewSessionResponseView,
};
pub use prompt::{
    ContentBlock, ContentBlockView, PromptRequest, PromptRequestView, PromptResponse,
    PromptResponseView, ResourceContent, ResourceContentView,
};
pub use update::{
    Location, LocationView, PlanEntry, PlanEntryView, SessionNotification,
    SessionNotificationView, SessionUpdate, SessionUpdateView, ToolCallContent,
    ToolCallContentView,
};
