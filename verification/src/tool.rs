//! Tools that a session exposes to the server: definitions, invocations and
//! results in the shape that the server expects.

use vstd::prelude::*;
use vstd::string::*;
use crate::error::CopilotError;
use crate::json::{
    empty_object, json_encode, opt_json_view, opt_string_json, view_items, Json, JsonView,
};
use crate::text::{joined, owned};

verus! {

/// Information about a tool invocation.
#[derive(Debug, Clone)]
pub struct ToolInvocation {
    /// Session ID.
    pub session_id: String,
    /// Unique ID for this tool call.
    pub tool_call_id: String,
    /// Name of the tool being called.
    pub tool_name: String,
    /// Raw arguments as JSON value.
    pub arguments: Json,
}

/// Binary result for tools.
#[derive(Debug, Clone)]
pub struct ToolBinaryResult {
    /// Base64-encoded data.
    pub data: String,
    /// MIME type.
    pub mime_type: String,
    /// Result type.
    pub result_type: String,
    /// Optional description.
    pub description: Option<String>,
}

impl ToolBinaryResult {
    /// The wire form: `data`, `mimeType` and `type`, and `description` where
    /// set.
    pub open spec fn json(self) -> JsonView {
        empty_object().with("data"@, JsonView::String(self.data@)).with(
            "mimeType"@,
            JsonView::String(self.mime_type@),
        ).with("type"@, JsonView::String(self.result_type@)).with_opt(
            "description"@,
            opt_string_json(self.description),
        )
    }

    /// Writes the binary result in its wire form.
    pub fn to_json(&self) -> (r: Json)
        ensures
            r@ == self.json(),
    {
        let mut o = Json::object();
        o.set("data", Json::string(self.data.as_str()));
        o.set("mimeType", Json::string(self.mime_type.as_str()));
        o.set("type", Json::string(self.result_type.as_str()));
        o.set_opt("description", Json::opt_string(&self.description));
        o
    }
}

/// Result of a tool execution.
#[derive(Debug, Clone)]
pub struct ToolResult {
    /// Text result for the LLM.
    pub text_result_for_llm: String,
    /// Binary results for the LLM.
    pub binary_results_for_llm: Option<Vec<ToolBinaryResult>>,
    /// Result type: "success" or "failure".
    pub result_type: String,
    /// Error message (for failures).
    pub error: Option<String>,
    /// Session log (optional).
    pub session_log: Option<String>,
    /// Tool telemetry data.
    pub tool_telemetry: Option<Json>,
}

/// The wire form of an optional list of binary results.
pub open spec fn opt_binary_json(value: Option<Vec<ToolBinaryResult>>) -> Option<JsonView> {
    match value {
        Some(items) => Some(JsonView::Array(Seq::new(items@.len(), |i: int| items@[i].json()))),
        None => None,
    }
}

/// The text that a failed tool shows in place of a result.
pub open spec fn failure_text() -> Seq<char> {
    "Invoking this tool produced an error. Detailed information is not available."@
}

impl ToolResult {
    /// A result with the given text, type and error, and nothing else.
    pub open spec fn plain(self, text: Seq<char>, result_type: Seq<char>) -> bool {
        &&& self.text_result_for_llm@ == text
        &&& self.result_type@ == result_type
        &&& self.binary_results_for_llm is None
        &&& self.session_log is None
        &&& self.tool_telemetry is None
    }

    /// A successful result with the given text.
    pub open spec fn is_success(self, text: Seq<char>) -> bool {
        self.plain(text, "success"@) && self.error is None
    }

    /// A failure with the given error.
    pub open spec fn is_failure(self, error: Seq<char>) -> bool {
        self.plain(failure_text(), "failure"@) && self.error is Some && self.error->0@ == error
    }

    /// The failure that stands for a tool that the session does not have.
    pub open spec fn is_unsupported(self, tool_name: Seq<char>) -> bool {
        &&& self.plain(
            "Tool '"@ + tool_name + "' is not supported by this client instance."@,
            "failure"@,
        )
        &&& self.error is Some
        &&& self.error->0@ == "tool '"@ + tool_name + "' not supported"@
    }

    /// The wire form: `textResultForLlm` and `resultType`, and the others
    /// where set.
    pub open spec fn json(self) -> JsonView {
        empty_object().with("textResultForLlm"@, JsonView::String(self.text_result_for_llm@))
            .with_opt("binaryResultsForLlm"@, opt_binary_json(self.binary_results_for_llm)).with(
            "resultType"@,
            JsonView::String(self.result_type@),
        ).with_opt("error"@, opt_string_json(self.error)).with_opt(
            "sessionLog"@,
            opt_string_json(self.session_log),
        ).with_opt("toolTelemetry"@, opt_json_view(self.tool_telemetry))
    }

    /// Create a successful result with text.
    pub fn success(text: &str) -> (r: Self)
        ensures
            r.is_success(text@),
    {
        ToolResult {
            text_result_for_llm: owned(text),
            binary_results_for_llm: None,
            result_type: owned("success"),
            error: None,
            session_log: None,
            tool_telemetry: None,
        }
    }

    /// Create a failure result.
    pub fn failure(error: &str) -> (r: Self)
        ensures
            r.is_failure(error@),
    {
        ToolResult {
            text_result_for_llm: owned(
                "Invoking this tool produced an error. Detailed information is not available.",
            ),
            binary_results_for_llm: None,
            result_type: owned("failure"),
            error: Some(owned(error)),
            session_log: None,
            tool_telemetry: None,
        }
    }

    /// Create a result for an unsupported tool.
    pub fn unsupported(tool_name: &str) -> (r: Self)
        ensures
            r.is_unsupported(tool_name@),
    {
        let mut text = joined("Tool '", tool_name);
        text.append("' is not supported by this client instance.");
        let mut error = joined("tool '", tool_name);
        error.append("' not supported");
        ToolResult {
            text_result_for_llm: text,
            binary_results_for_llm: None,
            result_type: owned("failure"),
            error: Some(error),
            session_log: None,
            tool_telemetry: None,
        }
    }

    /// Create the result for a tool whose handler broke off: a failure that
    /// names the tool and says nothing of what went wrong inside.
    pub fn faulted(tool_name: &str) -> (r: Self)
        ensures
            r.is_failure("tool '"@ + tool_name@ + "' failed"@),
    {
        let mut error = joined("tool '", tool_name);
        error.append("' failed");
        ToolResult::failure(error.as_str())
    }

    /// Set session log.
    pub fn session_log(self, log: &str) -> (r: Self)
        ensures
            r.session_log is Some && r.session_log->0@ == log@,
            r == (ToolResult { session_log: r.session_log, ..self }),
    {
        let mut r = self;
        r.session_log = Some(owned(log));
        r
    }

    /// Set tool telemetry, an object with the given members.
    pub fn telemetry(self, telemetry: Vec<(String, Json)>) -> (r: Self)
        ensures
            r.tool_telemetry == Some(Json::Object(telemetry)),
            r == (ToolResult { tool_telemetry: r.tool_telemetry, ..self }),
    {
        let mut r = self;
        r.tool_telemetry = Some(Json::Object(telemetry));
        r
    }

    /// Writes the result in its wire form.
    pub fn to_json(&self) -> (r: Json)
        ensures
            r@ == self.json(),
    {
        let mut o = Json::object();
        o.set("textResultForLlm", Json::string(self.text_result_for_llm.as_str()));
        let binary = match &self.binary_results_for_llm {
            Some(items) => {
                let mut out: Vec<Json> = Vec::new();
                let mut i: usize = 0;
                while i < items.len()
                    invariant
                        i <= items.len(),
                        out.len() == i,
                        forall|j: int| 0 <= j < i ==> out@[j]@ == items@[j].json(),
                    decreases items.len() - i,
                {
                    out.push(items[i].to_json());
                    i += 1;
                }
                assert(view_items(out@) =~= Seq::new(items@.len(), |i: int| items@[i].json()));
                Some(Json::Array(out))
            },
            None => None,
        };
        o.set_opt("binaryResultsForLlm", binary);
        o.set("resultType", Json::string(self.result_type.as_str()));
        o.set_opt("error", Json::opt_string(&self.error));
        o.set_opt("sessionLog", Json::opt_string(&self.session_log));
        let telemetry = match &self.tool_telemetry {
            Some(t) => Some(t.clone()),
            None => None,
        };
        o.set_opt("toolTelemetry", telemetry);
        o
    }
}

/// A tool definition that can be exposed to the server, with the handler
/// that runs it.
pub struct Tool<H> {
    /// Tool name.
    pub name: String,
    /// Tool description.
    pub description: String,
    /// JSON Schema for parameters.
    pub parameters: Option<Json>,
    /// Tool handler.
    pub handler: Option<H>,
}

impl<H> Tool<H> {
    /// What the server is told of the tool: `name` and `description`, and
    /// `parameters` where set.
    pub open spec fn definition(self) -> JsonView {
        empty_object().with("name"@, JsonView::String(self.name@)).with(
            "description"@,
            JsonView::String(self.description@),
        ).with_opt("parameters"@, opt_json_view(self.parameters))
    }

    /// Create a new tool with a name and description.
    pub fn new(name: &str, description: &str) -> (r: Self)
        ensures
            r.name@ == name@,
            r.description@ == description@,
            r.parameters is None,
            r.handler is None,
    {
        Tool { name: owned(name), description: owned(description), parameters: None, handler: None }
    }

    /// Set the parameters schema.
    pub fn parameters(self, params: Json) -> (r: Self)
        ensures
            r == (Tool { parameters: Some(params), ..self }),
    {
        let mut r = self;
        r.parameters = Some(params);
        r
    }

    /// Set the handler.
    pub fn handler(self, handler: H) -> (r: Self)
        ensures
            r == (Tool { handler: Some(handler), ..self }),
    {
        let mut r = self;
        r.handler = Some(handler);
        r
    }

    /// What the server is told of the tool.
    pub fn to_definition(&self) -> (r: Json)
        ensures
            r@ == self.definition(),
    {
        let mut o = Json::object();
        o.set("name", Json::string(self.name.as_str()));
        o.set("description", Json::string(self.description.as_str()));
        let parameters = match &self.parameters {
            Some(p) => Some(p.clone()),
            None => None,
        };
        o.set_opt("parameters", parameters);
        o
    }
}

/// Builder for creating tools by hand.
#[derive(Debug, Clone)]
pub struct ToolBuilder {
    name: String,
    description: String,
    parameters: Option<Json>,
}

impl ToolBuilder {
    /// The name that the tool will have.
    pub closed spec fn name(self) -> Seq<char> {
        self.name@
    }

    /// The description that the tool will have.
    pub closed spec fn described(self) -> Seq<char> {
        self.description@
    }

    /// The parameter schema that the tool will have.
    pub closed spec fn schema(self) -> Option<Json> {
        self.parameters
    }

    /// Create a new tool builder.
    pub fn new(name: &str) -> (r: Self)
        ensures
            r.name() == name@,
            r.described() == Seq::<char>::empty(),
            r.schema() is None,
    {
        ToolBuilder { name: owned(name), description: String::new(), parameters: None }
    }

    /// Set the tool description.
    pub fn description(self, description: &str) -> (r: Self)
        ensures
            r.name() == self.name(),
            r.described() == description@,
            r.schema() == self.schema(),
    {
        let mut r = self;
        r.description = owned(description);
        r
    }

    /// Set the JSON schema for parameters.
    pub fn parameters(self, parameters: Json) -> (r: Self)
        ensures
            r.name() == self.name(),
            r.described() == self.described(),
            r.schema() == Some(parameters),
    {
        let mut r = self;
        r.parameters = Some(parameters);
        r
    }

    /// Build the tool with its handler.
    pub fn handler<H>(self, handler: H) -> (r: Tool<H>)
        ensures
            r.name@ == self.name(),
            r.description@ == self.described(),
            r.parameters == self.schema(),
            r.handler == Some(handler),
    {
        Tool {
            name: self.name,
            description: self.description,
            parameters: self.parameters,
            handler: Some(handler),
        }
    }
}

/// Values that a tool handler may return in place of a [`ToolResult`].
pub trait IntoToolResult: Sized {
    /// What the value becomes.
    spec fn converts_to(self, r: Result<ToolResult, CopilotError>) -> bool;

    /// Convert this value into a [`ToolResult`].
    fn into_tool_result(self) -> (r: Result<ToolResult, CopilotError>)
        ensures
            self.converts_to(r),
    ;
}

impl IntoToolResult for ToolResult {
    /// A result stays as it is.
    open spec fn converts_to(self, r: Result<ToolResult, CopilotError>) -> bool {
        r == Ok::<ToolResult, CopilotError>(self)
    }

    fn into_tool_result(self) -> (r: Result<ToolResult, CopilotError>) {
        Ok(self)
    }
}

impl IntoToolResult for String {
    /// A string is the text of a success.
    open spec fn converts_to(self, r: Result<ToolResult, CopilotError>) -> bool {
        r is Ok && r->Ok_0.is_success(self@)
    }

    fn into_tool_result(self) -> (r: Result<ToolResult, CopilotError>) {
        Ok(ToolResult::success(self.as_str()))
    }
}

impl IntoToolResult for &str {
    /// A string is the text of a success.
    open spec fn converts_to(self, r: Result<ToolResult, CopilotError>) -> bool {
        r is Ok && r->Ok_0.is_success(self@)
    }

    fn into_tool_result(self) -> (r: Result<ToolResult, CopilotError>) {
        Ok(ToolResult::success(self))
    }
}

impl IntoToolResult for () {
    /// The unit value is a success with empty text.
    open spec fn converts_to(self, r: Result<ToolResult, CopilotError>) -> bool {
        r is Ok && r->Ok_0.is_success(Seq::empty())
    }

    fn into_tool_result(self) -> (r: Result<ToolResult, CopilotError>) {
        proof {
            reveal_strlit("");
        }
        let r = ToolResult::success("");
        assert(""@ =~= Seq::<char>::empty());
        Ok(r)
    }
}

impl IntoToolResult for Json {
    /// A JSON value is a success with its compact text.
    open spec fn converts_to(self, r: Result<ToolResult, CopilotError>) -> bool {
        r is Ok && r->Ok_0.is_success(json_encode(self@))
    }

    fn into_tool_result(self) -> (r: Result<ToolResult, CopilotError>) {
        let text = self.to_text();
        Ok(ToolResult::success(text.as_str()))
    }
}

} // verus!
