//! Protocol core of an SDK that drives a conversational-agent CLI server over
//! length-framed JSON-RPC 2.0.
//!
//! Everything here is free of I/O: frames are encoded and decoded on byte
//! buffers, and the endpoint, the session and the client are state machines
//! that say what to send and whom to notify. A runtime feeds them bytes and
//! events, and does what they ask.
//!
//! - [`framing`] puts bodies in frames and finds frames in a buffer.
//! - [`json`] holds JSON values as plain data.
//! - [`jsonrpc`] tells messages apart and matches responses to requests.
//! - [`session`] keeps the subscribers and the handlers of a conversation.
//! - [`client`] resolves the configuration, follows the connection state,
//!   keeps the sessions and routes what the server sends.

pub mod base64;
pub mod client;
pub mod error;
pub mod events;
pub mod framing;
pub mod json;
pub mod jsonrpc;
pub mod registry;
pub mod session;
pub mod text;
pub mod tool;
pub mod tools;
pub mod types;

pub use client::{get_sdk_protocol_version, CopilotClient, SDK_PROTOCOL_VERSION};
pub use error::{CopilotError, JsonRpcError};
pub use events::{SessionEvent, SessionEventType};
pub use json::Json;
pub use session::Session;
pub use tool::{IntoToolResult, Tool, ToolBinaryResult, ToolBuilder, ToolInvocation, ToolResult};
pub use types::{
    Attachment, AttachmentType, AzureProviderOptions, ClientOptions, ConnectionState,
    CustomAgentConfig, GetAuthStatusResponse, GetStatusResponse, ListSessionsResponse,
    McpLocalServerConfig, McpRemoteServerConfig, MessageOptions, ModelCapabilities, ModelLimits,
    ModelPolicy, ModelSupports, ModelVisionLimits, PermissionInvocation, PermissionRequest,
    PermissionRequestResult, PingResponse, ProviderConfig, ResumeSessionConfig, SessionConfig,
    SessionCreateResponse, SessionListItem, SessionSendResponse, SystemMessageConfig,
};
