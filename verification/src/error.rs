//! Error types of the SDK.

use vstd::prelude::*;
use vstd::string::*;
use vstd::std_specs::convert::FromSpecImpl;
use crate::json::{i64_string, integer_text, Json};
use crate::text::{joined, owned};

verus! {

/// Main error type of the SDK.
#[derive(Debug, Clone)]
pub enum CopilotError {
    /// JSON-RPC error received from the server, with the code, the message
    /// and the additional data that the server gave.
    JsonRpc { code: i32, message: String, data: Option<Json> },
    /// Network or transport-level failure.
    Connection(String),
    /// The CLI server failed to start or crashed.
    Process(String),
    /// A session-related operation failed.
    Session(String),
    /// The client is not connected.
    NotConnected,
    /// The server reports a protocol version other than the SDK's.
    ProtocolVersionMismatch { expected: i32, actual: i32 },
    /// The server reports no protocol version.
    ProtocolVersionNotReported { expected: i32 },
    /// An operation took longer than its timeout.
    Timeout,
    /// The server sent a response that is malformed.
    InvalidResponse(String),
    /// A tool handler failed.
    ToolExecution(String),
    /// JSON serialization or deserialization failed.
    Serialization(String),
    /// An I/O operation failed.
    Io(String),
    /// The client has been stopped.
    ClientStopped,
    /// The client configuration is invalid.
    InvalidConfig(String),
}

impl CopilotError {
    /// The message that the error displays.
    pub open spec fn text(self) -> Seq<char> {
        match self {
            CopilotError::JsonRpc { code, message, data } => "JSON-RPC error "@ + integer_text(
                code as int,
            ) + ": "@ + message@,
            CopilotError::Connection(m) => "Connection error: "@ + m@,
            CopilotError::Process(m) => "Process error: "@ + m@,
            CopilotError::Session(m) => "Session error: "@ + m@,
            CopilotError::NotConnected => "Client not connected. Call start() first"@,
            CopilotError::ProtocolVersionMismatch { expected, actual } =>
                "SDK protocol version mismatch: SDK expects version "@ + integer_text(
                    expected as int,
                ) + ", but server reports version "@ + integer_text(actual as int)
                    + ". Please update your SDK or server to ensure compatibility"@,
            CopilotError::ProtocolVersionNotReported { expected } =>
                "SDK protocol version mismatch: SDK expects version "@ + integer_text(
                    expected as int,
                )
                    + ", but server does not report a protocol version. Please update your server to ensure compatibility"@,
            CopilotError::Timeout => "Timeout waiting for response"@,
            CopilotError::InvalidResponse(m) => "Invalid response: "@ + m@,
            CopilotError::ToolExecution(m) => "Tool execution error: "@ + m@,
            CopilotError::Serialization(m) => "Serialization error: "@ + m@,
            CopilotError::Io(m) => "IO error: "@ + m@,
            CopilotError::ClientStopped => "Client stopped"@,
            CopilotError::InvalidConfig(m) => "Invalid configuration: "@ + m@,
        }
    }

    /// The message that the error displays.
    pub fn to_string(&self) -> (r: String)
        ensures
            r@ == self.text(),
    {
        match self {
            CopilotError::JsonRpc { code, message, data } => {
                let mut r = owned("JSON-RPC error ");
                r.append(i64_string(*code as i64).as_str());
                r.append(": ");
                r.append(message.as_str());
                r
            },
            CopilotError::Connection(m) => joined("Connection error: ", m.as_str()),
            CopilotError::Process(m) => joined("Process error: ", m.as_str()),
            CopilotError::Session(m) => joined("Session error: ", m.as_str()),
            CopilotError::NotConnected => owned("Client not connected. Call start() first"),
            CopilotError::ProtocolVersionMismatch { expected, actual } => {
                let mut r = owned("SDK protocol version mismatch: SDK expects version ");
                r.append(i64_string(*expected as i64).as_str());
                r.append(", but server reports version ");
                r.append(i64_string(*actual as i64).as_str());
                r.append(". Please update your SDK or server to ensure compatibility");
                r
            },
            CopilotError::ProtocolVersionNotReported { expected } => {
                let mut r = owned("SDK protocol version mismatch: SDK expects version ");
                r.append(i64_string(*expected as i64).as_str());
                r.append(
                    ", but server does not report a protocol version. Please update your server to ensure compatibility",
                );
                r
            },
            CopilotError::Timeout => owned("Timeout waiting for response"),
            CopilotError::InvalidResponse(m) => joined("Invalid response: ", m.as_str()),
            CopilotError::ToolExecution(m) => joined("Tool execution error: ", m.as_str()),
            CopilotError::Serialization(m) => joined("Serialization error: ", m.as_str()),
            CopilotError::Io(m) => joined("IO error: ", m.as_str()),
            CopilotError::ClientStopped => owned("Client stopped"),
            CopilotError::InvalidConfig(m) => joined("Invalid configuration: ", m.as_str()),
        }
    }

    /// A session error with the given message.
    pub fn session(message: &str) -> (r: CopilotError)
        ensures
            r matches CopilotError::Session(m) && m@ == message@,
    {
        CopilotError::Session(owned(message))
    }
}

/// A JSON-RPC 2.0 error object: a code, a message and optional data.
#[derive(Debug, Clone)]
pub struct JsonRpcError {
    /// The JSON-RPC error code.
    pub code: i32,
    /// Human-readable error message describing what went wrong.
    pub message: String,
    /// Optional additional error data.
    pub data: Option<Json>,
}

impl JsonRpcError {
    /// Parse error: invalid JSON was received.
    pub const PARSE_ERROR: i32 = -32700;

    /// Invalid Request: the JSON sent is not a valid request object.
    pub const INVALID_REQUEST: i32 = -32600;

    /// Method not found: the method does not exist or is not available.
    pub const METHOD_NOT_FOUND: i32 = -32601;

    /// Invalid params: invalid method parameters.
    pub const INVALID_PARAMS: i32 = -32602;

    /// Internal error: internal JSON-RPC error.
    pub const INTERNAL_ERROR: i32 = -32603;

    /// Create a new JSON-RPC error with the given code and message.
    pub fn new(code: i32, message: &str) -> (r: Self)
        ensures
            r.code == code,
            r.message@ == message@,
            r.data is None,
    {
        JsonRpcError { code, message: owned(message), data: None }
    }

    /// Add additional data to the error.
    pub fn with_data(self, data: Json) -> (r: Self)
        ensures
            r == (JsonRpcError { data: Some(data), ..self }),
    {
        let mut r = self;
        r.data = Some(data);
        r
    }

    /// The message that the error displays.
    pub open spec fn text(self) -> Seq<char> {
        "JSON-RPC Error "@ + integer_text(self.code as int) + ": "@ + self.message@
    }

    /// The message that the error displays.
    pub fn to_string(&self) -> (r: String)
        ensures
            r@ == self.text(),
    {
        let mut r = owned("JSON-RPC Error ");
        r.append(i64_string(self.code as i64).as_str());
        r.append(": ");
        r.append(self.message.as_str());
        r
    }
}

impl From<JsonRpcError> for CopilotError {
    fn from(err: JsonRpcError) -> (r: CopilotError) {
        CopilotError::JsonRpc { code: err.code, message: err.message, data: err.data }
    }
}

impl FromSpecImpl<JsonRpcError> for CopilotError {
    open spec fn obeys_from_spec() -> bool {
        true
    }

    open spec fn from_spec(err: JsonRpcError) -> CopilotError {
        CopilotError::JsonRpc { code: err.code, message: err.message, data: err.data }
    }
}

} // verus!
