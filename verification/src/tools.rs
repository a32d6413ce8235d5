//! Tools in their simple form: a definition with a parameter schema, and a
//! result that carries text or base64 data.

use vstd::prelude::*;
use vstd::string::*;
use crate::base64::{encode, encoded};
use crate::json::{empty_object, Json, JsonView};
use crate::text::owned;

verus! {

/// A tool definition with JSON schema for parameters.
#[derive(Debug, Clone)]
pub struct Tool {
    /// Tool name.
    pub name: String,
    /// Tool description.
    pub description: String,
    /// JSON schema for parameters.
    pub parameters: Json,
}

/// The schema of a tool that takes no parameters: an object type with no
/// properties and nothing required.
pub open spec fn no_parameters() -> JsonView {
    empty_object().with("type"@, JsonView::String("object"@)).with(
        "properties"@,
        empty_object(),
    ).with("required"@, JsonView::Array(Seq::empty()))
}

impl Tool {
    /// Create a new tool with the given name, description, and parameter schema.
    pub fn new(name: &str, description: &str, parameters: Json) -> (r: Self)
        ensures
            r.name@ == name@,
            r.description@ == description@,
            r.parameters == parameters,
    {
        Tool { name: owned(name), description: owned(description), parameters }
    }

    /// Create a simple tool with no parameters.
    pub fn simple(name: &str, description: &str) -> (r: Self)
        ensures
            r.name@ == name@,
            r.description@ == description@,
            r.parameters@ == no_parameters(),
    {
        let mut parameters = Json::object();
        parameters.set("type", Json::string("object"));
        parameters.set("properties", Json::object());
        let required = Json::Array(Vec::new());
        assert(crate::json::view_items(Seq::<Json>::empty()) =~= Seq::empty());
        parameters.set("required", required);
        Tool { name: owned(name), description: owned(description), parameters }
    }
}

/// Context for tool invocation.
#[derive(Debug, Clone)]
pub struct ToolInvocation {
    /// Session ID where the tool was called.
    pub session_id: String,
    /// Unique ID for this tool call.
    pub tool_call_id: String,
}

/// Result of a tool execution.
#[derive(Debug, Clone)]
pub struct ToolResult {
    /// Result content (text or data).
    pub content: Option<String>,
    /// Binary data (base64 encoded).
    pub data: Option<String>,
    /// MIME type for binary data.
    pub mime_type: Option<String>,
    /// Telemetry data, by name.
    pub telemetry: Option<Vec<(String, Json)>>,
    /// Whether the tool execution was successful.
    pub success: Option<bool>,
    /// Error message if execution failed.
    pub error: Option<String>,
}

impl ToolResult {
    /// Create a text result.
    pub fn text(content: &str) -> (r: Self)
        ensures
            r.content is Some && r.content->0@ == content@,
            r.data is None,
            r.mime_type is None,
            r.telemetry is None,
            r.success == Some(true),
            r.error is None,
    {
        ToolResult {
            content: Some(owned(content)),
            data: None,
            mime_type: None,
            telemetry: None,
            success: Some(true),
            error: None,
        }
    }

    /// Create a binary result, with the data in base64.
    pub fn binary(data: Vec<u8>, mime_type: &str) -> (r: Self)
        ensures
            r.content is None,
            r.data is Some && r.data->0@ == encoded(data@),
            r.mime_type is Some && r.mime_type->0@ == mime_type@,
            r.telemetry is None,
            r.success == Some(true),
            r.error is None,
    {
        ToolResult {
            content: None,
            data: Some(encode(data.as_slice())),
            mime_type: Some(owned(mime_type)),
            telemetry: None,
            success: Some(true),
            error: None,
        }
    }

    /// Create an error result.
    pub fn error(message: &str) -> (r: Self)
        ensures
            r.content is None,
            r.data is None,
            r.mime_type is None,
            r.telemetry is None,
            r.success == Some(false),
            r.error is Some && r.error->0@ == message@,
    {
        ToolResult {
            content: None,
            data: None,
            mime_type: None,
            telemetry: None,
            success: Some(false),
            error: Some(owned(message)),
        }
    }

    /// Add telemetry data to the result.
    pub fn with_telemetry(self, telemetry: Vec<(String, Json)>) -> (r: Self)
        ensures
            r == (ToolResult { telemetry: Some(telemetry), ..self }),
    {
        let mut r = self;
        r.telemetry = Some(telemetry);
        r
    }
}

} // verus!
