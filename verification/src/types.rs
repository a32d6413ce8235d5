//! The records that the client, the sessions and their callers exchange, and
//! the JSON that each has on the wire.

use vstd::prelude::*;
use vstd::string::*;
use crate::json::{
    empty_object, opt_bool_json, opt_json_view, opt_string_json, opt_strings_json, view_fields,
    Json, JsonView,
};
use crate::text::owned;
use crate::tool::Tool;

verus! {

/// Connection state of the client.
#[derive(Debug, Clone, Copy, PartialEq, Eq, Structural)]
pub enum ConnectionState {
    /// Not connected to the CLI server.
    Disconnected,
    /// Currently connecting to the CLI server.
    Connecting,
    /// Connected to the CLI server.
    Connected,
    /// Connection error occurred.
    Error,
}

impl Default for ConnectionState {
    fn default() -> (r: Self)
        ensures
            r == ConnectionState::Disconnected,
    {
        ConnectionState::Disconnected
    }
}

/// Options for configuring the client. A field left at `None` takes the
/// client's default.
#[derive(Debug, Clone)]
pub struct ClientOptions {
    /// Path to the CLI executable (default: "copilot").
    pub cli_path: Option<String>,
    /// Working directory for the CLI process.
    pub cwd: Option<String>,
    /// Port for TCP transport (default: 0, a port of the server's choosing).
    pub port: Option<u16>,
    /// Use stdio transport instead of TCP (default: true).
    pub use_stdio: Option<bool>,
    /// Address of a running CLI server: "host:port", "http://host:port", or
    /// just "port". Excludes `cli_path` and `use_stdio`.
    pub cli_url: Option<String>,
    /// Log level for the CLI server.
    pub log_level: Option<String>,
    /// Start the CLI server on first use (default: true).
    pub auto_start: Option<bool>,
    /// Restart the CLI server if the connection is lost (default: true).
    pub auto_restart: Option<bool>,
    /// Environment variables for the CLI process.
    pub env: Option<Vec<(String, String)>>,
}

impl ClientOptions {
    /// Options with every field unset.
    pub open spec fn unset() -> ClientOptions {
        ClientOptions {
            cli_path: None,
            cwd: None,
            port: None,
            use_stdio: None,
            cli_url: None,
            log_level: None,
            auto_start: None,
            auto_restart: None,
            env: None,
        }
    }

    /// Create new client options with defaults.
    pub fn new() -> (r: Self)
        ensures
            r == ClientOptions::unset(),
    {
        ClientOptions {
            cli_path: None,
            cwd: None,
            port: None,
            use_stdio: None,
            cli_url: None,
            log_level: None,
            auto_start: None,
            auto_restart: None,
            env: None,
        }
    }

    /// Set the CLI path.
    pub fn cli_path(self, path: &str) -> (r: Self)
        ensures
            r.cli_path is Some && r.cli_path->0@ == path@,
            r == (ClientOptions { cli_path: r.cli_path, ..self }),
    {
        let mut r = self;
        r.cli_path = Some(owned(path));
        r
    }

    /// Set the working directory.
    pub fn cwd(self, cwd: &str) -> (r: Self)
        ensures
            r.cwd is Some && r.cwd->0@ == cwd@,
            r == (ClientOptions { cwd: r.cwd, ..self }),
    {
        let mut r = self;
        r.cwd = Some(owned(cwd));
        r
    }

    /// Set the port for TCP transport.
    pub fn port(self, port: u16) -> (r: Self)
        ensures
            r == (ClientOptions { port: Some(port), ..self }),
    {
        let mut r = self;
        r.port = Some(port);
        r
    }

    /// Set whether to use stdio transport.
    pub fn use_stdio(self, use_stdio: bool) -> (r: Self)
        ensures
            r == (ClientOptions { use_stdio: Some(use_stdio), ..self }),
    {
        let mut r = self;
        r.use_stdio = Some(use_stdio);
        r
    }

    /// Set the address of a running server to connect to.
    pub fn cli_url(self, url: &str) -> (r: Self)
        ensures
            r.cli_url is Some && r.cli_url->0@ == url@,
            r == (ClientOptions { cli_url: r.cli_url, ..self }),
    {
        let mut r = self;
        r.cli_url = Some(owned(url));
        r
    }

    /// Set the log level.
    pub fn log_level(self, level: &str) -> (r: Self)
        ensures
            r.log_level is Some && r.log_level->0@ == level@,
            r == (ClientOptions { log_level: r.log_level, ..self }),
    {
        let mut r = self;
        r.log_level = Some(owned(level));
        r
    }

    /// Set auto-start behavior.
    pub fn auto_start(self, auto_start: bool) -> (r: Self)
        ensures
            r == (ClientOptions { auto_start: Some(auto_start), ..self }),
    {
        let mut r = self;
        r.auto_start = Some(auto_start);
        r
    }

    /// Set auto-restart behavior.
    pub fn auto_restart(self, auto_restart: bool) -> (r: Self)
        ensures
            r == (ClientOptions { auto_restart: Some(auto_restart), ..self }),
    {
        let mut r = self;
        r.auto_restart = Some(auto_restart);
        r
    }

    /// Set environment variables.
    pub fn env(self, env: Vec<(String, String)>) -> (r: Self)
        ensures
            r == (ClientOptions { env: Some(env), ..self }),
    {
        let mut r = self;
        r.env = Some(env);
        r
    }
}

impl Default for ClientOptions {
    fn default() -> (r: Self)
        ensures
            r == ClientOptions::unset(),
    {
        ClientOptions::new()
    }
}

/// System message configuration.
#[derive(Debug, Clone)]
pub struct SystemMessageConfig {
    /// Mode: "append" (default) or "replace".
    pub mode: Option<String>,
    /// Content to append or replace with.
    pub content: Option<String>,
}

impl SystemMessageConfig {
    /// The wire form: an object with `mode` and `content`, each where set.
    pub open spec fn json(self) -> JsonView {
        empty_object().with_opt("mode"@, opt_string_json(self.mode)).with_opt(
            "content"@,
            opt_string_json(self.content),
        )
    }

    /// Create append mode configuration.
    pub fn append(content: &str) -> (r: Self)
        ensures
            r.mode is Some && r.mode->0@ == "append"@,
            r.content is Some && r.content->0@ == content@,
    {
        SystemMessageConfig { mode: Some(owned("append")), content: Some(owned(content)) }
    }

    /// Create replace mode configuration.
    pub fn replace(content: &str) -> (r: Self)
        ensures
            r.mode is Some && r.mode->0@ == "replace"@,
            r.content is Some && r.content->0@ == content@,
    {
        SystemMessageConfig { mode: Some(owned("replace")), content: Some(owned(content)) }
    }

    /// Writes the record in its wire form.
    pub fn to_json(&self) -> (r: Json)
        ensures
            r@ == self.json(),
    {
        let mut o = Json::object();
        o.set_opt("mode", Json::opt_string(&self.mode));
        o.set_opt("content", Json::opt_string(&self.content));
        o
    }
}

/// Permission request from the server.
#[derive(Debug, Clone)]
pub struct PermissionRequest {
    /// The kind of permission being requested.
    pub kind: String,
    /// The tool call ID associated with the permission request.
    pub tool_call_id: Option<String>,
    /// Additional members, which vary by kind.
    pub extra: Vec<(String, Json)>,
}

/// Result of a permission request.
#[derive(Debug, Clone)]
pub struct PermissionRequestResult {
    /// The kind of result.
    pub kind: String,
    /// Optional rules for the permission.
    pub rules: Option<Vec<Json>>,
}

/// An optional list of values as an optional JSON array.
pub open spec fn opt_items_json(value: Option<Vec<Json>>) -> Option<JsonView> {
    match value {
        Some(items) => Some(JsonView::Array(crate::json::view_items(items@))),
        None => None,
    }
}

impl PermissionRequestResult {
    /// The wire form: `kind`, and `rules` where set.
    pub open spec fn json(self) -> JsonView {
        empty_object().with("kind"@, JsonView::String(self.kind@)).with_opt(
            "rules"@,
            opt_items_json(self.rules),
        )
    }

    /// Create a denied result.
    pub fn denied() -> (r: Self)
        ensures
            r.kind@ == "denied-no-approval-rule-and-could-not-request-from-user"@,
            r.rules is None,
    {
        PermissionRequestResult {
            kind: owned("denied-no-approval-rule-and-could-not-request-from-user"),
            rules: None,
        }
    }

    /// Create an approved result.
    pub fn approved() -> (r: Self)
        ensures
            r.kind@ == "approved"@,
            r.rules is None,
    {
        PermissionRequestResult { kind: owned("approved"), rules: None }
    }

    /// Writes the record in its wire form.
    pub fn to_json(&self) -> (r: Json)
        ensures
            r@ == self.json(),
    {
        let mut o = Json::object();
        o.set("kind", Json::string(self.kind.as_str()));
        let rules = match &self.rules {
            Some(items) => Some(Json::array_of(items)),
            None => None,
        };
        o.set_opt("rules", rules);
        o
    }
}

/// Context for a permission invocation.
#[derive(Debug, Clone)]
pub struct PermissionInvocation {
    /// The session ID.
    pub session_id: String,
}

/// Configuration for a local/stdio MCP server.
#[derive(Debug, Clone)]
pub struct McpLocalServerConfig {
    /// List of tool names.
    pub tools: Vec<String>,
    /// Server type: "local" or "stdio".
    pub server_type: Option<String>,
    /// Timeout in milliseconds.
    pub timeout: Option<i32>,
    /// Command to execute.
    pub command: String,
    /// Command arguments.
    pub args: Vec<String>,
    /// Environment variables.
    pub env: Option<Vec<(String, String)>>,
    /// Working directory.
    pub cwd: Option<String>,
}

/// Configuration for a remote MCP server (HTTP or SSE).
#[derive(Debug, Clone)]
pub struct McpRemoteServerConfig {
    /// List of tool names.
    pub tools: Vec<String>,
    /// Server type: "http" or "sse".
    pub server_type: String,
    /// Timeout in milliseconds.
    pub timeout: Option<i32>,
    /// Server URL.
    pub url: String,
    /// HTTP headers.
    pub headers: Option<Vec<(String, String)>>,
}

/// A list of named strings as a JSON object.
pub open spec fn string_map_json(entries: Seq<(String, String)>) -> JsonView {
    JsonView::Object(
        Seq::new(entries.len(), |i: int| (entries[i].0@, JsonView::String(entries[i].1@))),
    )
}

/// An optional list of named strings as an optional JSON object.
pub open spec fn opt_string_map_json(value: Option<Vec<(String, String)>>) -> Option<JsonView> {
    match value {
        Some(entries) => Some(string_map_json(entries@)),
        None => None,
    }
}

/// An optional list of named strings as an optional JSON object.
pub fn opt_string_map(value: &Option<Vec<(String, String)>>) -> (r: Option<Json>)
    ensures
        opt_json_view(r) == opt_string_map_json(*value),
{
    match value {
        Some(entries) => {
            let mut out: Vec<(String, Json)> = Vec::new();
            let mut i: usize = 0;
            while i < entries.len()
                invariant
                    i <= entries.len(),
                    out.len() == i,
                    forall|j: int|
                        0 <= j < i ==> out@[j].0@ == entries@[j].0@ && out@[j].1@
                            == JsonView::String(entries@[j].1@),
                decreases entries.len() - i,
            {
                out.push((entries[i].0.clone(), Json::String(entries[i].1.clone())));
                i += 1;
            }
            assert(view_fields(out@) =~= Seq::new(
                entries@.len(),
                |i: int| (entries@[i].0@, JsonView::String(entries@[i].1@)),
            ));
            Some(Json::Object(out))
        },
        None => None,
    }
}

/// An optional integer as an optional JSON number.
pub open spec fn opt_i32_json(value: Option<i32>) -> Option<JsonView> {
    match value {
        Some(i) => Some(JsonView::Number(crate::json::integer_text(i as int))),
        None => None,
    }
}

/// An optional integer as an optional JSON number.
pub fn opt_i32(value: &Option<i32>) -> (r: Option<Json>)
    ensures
        opt_json_view(r) == opt_i32_json(*value),
{
    match value {
        Some(i) => Some(Json::integer(*i as i64)),
        None => None,
    }
}

impl McpLocalServerConfig {
    /// The wire form: `tools`, `command` and `args` always, the others where
    /// set.
    pub open spec fn json(self) -> JsonView {
        empty_object().with("tools"@, crate::json::strings_json(self.tools@)).with_opt(
            "type"@,
            opt_string_json(self.server_type),
        ).with_opt("timeout"@, opt_i32_json(self.timeout)).with(
            "command"@,
            JsonView::String(self.command@),
        ).with("args"@, crate::json::strings_json(self.args@)).with_opt(
            "env"@,
            opt_string_map_json(self.env),
        ).with_opt("cwd"@, opt_string_json(self.cwd))
    }

    /// Writes the record in its wire form.
    pub fn to_json(&self) -> (r: Json)
        ensures
            r@ == self.json(),
    {
        let mut o = Json::object();
        o.set("tools", Json::strings(&self.tools));
        o.set_opt("type", Json::opt_string(&self.server_type));
        o.set_opt("timeout", opt_i32(&self.timeout));
        o.set("command", Json::string(self.command.as_str()));
        o.set("args", Json::strings(&self.args));
        o.set_opt("env", opt_string_map(&self.env));
        o.set_opt("cwd", Json::opt_string(&self.cwd));
        o
    }
}

impl McpRemoteServerConfig {
    /// The wire form: `tools`, `type` and `url` always, the others where set.
    pub open spec fn json(self) -> JsonView {
        empty_object().with("tools"@, crate::json::strings_json(self.tools@)).with(
            "type"@,
            JsonView::String(self.server_type@),
        ).with_opt("timeout"@, opt_i32_json(self.timeout)).with(
            "url"@,
            JsonView::String(self.url@),
        ).with_opt("headers"@, opt_string_map_json(self.headers))
    }

    /// Writes the record in its wire form.
    pub fn to_json(&self) -> (r: Json)
        ensures
            r@ == self.json(),
    {
        let mut o = Json::object();
        o.set("tools", Json::strings(&self.tools));
        o.set("type", Json::string(self.server_type.as_str()));
        o.set_opt("timeout", opt_i32(&self.timeout));
        o.set("url", Json::string(self.url.as_str()));
        o.set_opt("headers", opt_string_map(&self.headers));
        o
    }
}

/// Custom model provider configuration.
#[derive(Debug, Clone)]
pub struct ProviderConfig {
    /// Provider type, such as "openai" or "azure".
    pub provider_type: Option<String>,
    /// API format: "completions" or "responses".
    pub wire_api: Option<String>,
    /// API endpoint URL.
    pub base_url: String,
    /// API key.
    pub api_key: Option<String>,
    /// Bearer token for authentication.
    pub bearer_token: Option<String>,
    /// Azure-specific options.
    pub azure: Option<AzureProviderOptions>,
}

/// Azure-specific provider options.
#[derive(Debug, Clone)]
pub struct AzureProviderOptions {
    /// Azure API version.
    pub api_version: Option<String>,
}

impl AzureProviderOptions {
    /// The wire form: `apiVersion`, where set.
    pub open spec fn json(self) -> JsonView {
        empty_object().with_opt("apiVersion"@, opt_string_json(self.api_version))
    }

    /// Writes the record in its wire form.
    pub fn to_json(&self) -> (r: Json)
        ensures
            r@ == self.json(),
    {
        let mut o = Json::object();
        o.set_opt("apiVersion", Json::opt_string(&self.api_version));
        o
    }
}

/// The wire form of optional Azure options.
pub open spec fn opt_azure_json(value: Option<AzureProviderOptions>) -> Option<JsonView> {
    match value {
        Some(a) => Some(a.json()),
        None => None,
    }
}

impl ProviderConfig {
    /// The wire form: `baseUrl` always, the others where set.
    pub open spec fn json(self) -> JsonView {
        empty_object().with_opt("type"@, opt_string_json(self.provider_type)).with_opt(
            "wireApi"@,
            opt_string_json(self.wire_api),
        ).with("baseUrl"@, JsonView::String(self.base_url@)).with_opt(
            "apiKey"@,
            opt_string_json(self.api_key),
        ).with_opt("bearerToken"@, opt_string_json(self.bearer_token)).with_opt(
            "azure"@,
            opt_azure_json(self.azure),
        )
    }

    /// Writes the record in its wire form.
    pub fn to_json(&self) -> (r: Json)
        ensures
            r@ == self.json(),
    {
        let mut o = Json::object();
        o.set_opt("type", Json::opt_string(&self.provider_type));
        o.set_opt("wireApi", Json::opt_string(&self.wire_api));
        o.set("baseUrl", Json::string(self.base_url.as_str()));
        o.set_opt("apiKey", Json::opt_string(&self.api_key));
        o.set_opt("bearerToken", Json::opt_string(&self.bearer_token));
        let azure = match &self.azure {
            Some(a) => Some(a.to_json()),
            None => None,
        };
        o.set_opt("azure", azure);
        o
    }
}

/// Configuration for a custom agent.
#[derive(Debug, Clone)]
pub struct CustomAgentConfig {
    /// Unique name of the custom agent.
    pub name: String,
    /// Display name for UI purposes.
    pub display_name: Option<String>,
    /// Description of what the agent does.
    pub description: Option<String>,
    /// List of tool names the agent can use (None for all tools).
    pub tools: Option<Vec<String>>,
    /// Prompt content for the agent.
    pub prompt: String,
    /// MCP servers specific to this agent, by name.
    pub mcp_servers: Option<Vec<(String, Json)>>,
    /// Whether the agent should be available for model inference.
    pub infer: Option<bool>,
}

/// An optional list of members as an optional JSON object.
pub open spec fn opt_fields_json(value: Option<Vec<(String, Json)>>) -> Option<JsonView> {
    match value {
        Some(fields) => Some(JsonView::Object(view_fields(fields@))),
        None => None,
    }
}

/// An optional list of members as an optional JSON object.
pub fn opt_fields(value: &Option<Vec<(String, Json)>>) -> (r: Option<Json>)
    ensures
        opt_json_view(r) == opt_fields_json(*value),
{
    match value {
        Some(fields) => Some(Json::object_of(fields)),
        None => None,
    }
}

impl CustomAgentConfig {
    /// The wire form: `name` and `prompt` always, the others where set.
    pub open spec fn json(self) -> JsonView {
        empty_object().with("name"@, JsonView::String(self.name@)).with_opt(
            "displayName"@,
            opt_string_json(self.display_name),
        ).with_opt("description"@, opt_string_json(self.description)).with_opt(
            "tools"@,
            opt_strings_json(self.tools),
        ).with("prompt"@, JsonView::String(self.prompt@)).with_opt(
            "mcpServers"@,
            opt_fields_json(self.mcp_servers),
        ).with_opt("infer"@, opt_bool_json(self.infer))
    }

    /// Writes the record in its wire form.
    pub fn to_json(&self) -> (r: Json)
        ensures
            r@ == self.json(),
    {
        let mut o = Json::object();
        o.set("name", Json::string(self.name.as_str()));
        o.set_opt("displayName", Json::opt_string(&self.display_name));
        o.set_opt("description", Json::opt_string(&self.description));
        o.set_opt("tools", Json::opt_strings(&self.tools));
        o.set("prompt", Json::string(self.prompt.as_str()));
        o.set_opt("mcpServers", opt_fields(&self.mcp_servers));
        o.set_opt("infer", Json::opt_bool(&self.infer));
        o
    }
}

/// Attachment type.
#[derive(Debug, Clone, Copy, PartialEq, Eq, Structural)]
pub enum AttachmentType {
    /// File attachment.
    File,
    /// Directory attachment.
    Directory,
}

impl AttachmentType {
    /// The name on the wire.
    pub open spec fn wire_name(self) -> Seq<char> {
        match self {
            AttachmentType::File => "file"@,
            AttachmentType::Directory => "directory"@,
        }
    }

    /// The name on the wire.
    pub fn as_str(&self) -> (r: &'static str)
        ensures
            r@ == self.wire_name(),
    {
        match self {
            AttachmentType::File => "file",
            AttachmentType::Directory => "directory",
        }
    }
}

/// File or directory attachment.
#[derive(Debug, Clone)]
pub struct Attachment {
    /// Attachment type: file or directory.
    pub attachment_type: AttachmentType,
    /// Path to the file or directory.
    pub path: String,
    /// Display name for the attachment.
    pub display_name: Option<String>,
}

impl Attachment {
    /// The wire form: `type` and `path`, and `displayName` where set.
    pub open spec fn json(self) -> JsonView {
        empty_object().with("type"@, JsonView::String(self.attachment_type.wire_name())).with(
            "path"@,
            JsonView::String(self.path@),
        ).with_opt("displayName"@, opt_string_json(self.display_name))
    }

    /// Create a file attachment.
    pub fn file(path: &str) -> (r: Self)
        ensures
            r.attachment_type == AttachmentType::File,
            r.path@ == path@,
            r.display_name is None,
    {
        Attachment { attachment_type: AttachmentType::File, path: owned(path), display_name: None }
    }

    /// Create a directory attachment.
    pub fn directory(path: &str) -> (r: Self)
        ensures
            r.attachment_type == AttachmentType::Directory,
            r.path@ == path@,
            r.display_name is None,
    {
        Attachment {
            attachment_type: AttachmentType::Directory,
            path: owned(path),
            display_name: None,
        }
    }

    /// Writes the record in its wire form.
    pub fn to_json(&self) -> (r: Json)
        ensures
            r@ == self.json(),
    {
        let mut o = Json::object();
        o.set("type", Json::string(self.attachment_type.as_str()));
        o.set("path", Json::string(self.path.as_str()));
        o.set_opt("displayName", Json::opt_string(&self.display_name));
        o
    }
}

/// The wire form of a list of attachments.
pub open spec fn attachments_json(items: Seq<Attachment>) -> JsonView {
    JsonView::Array(Seq::new(items.len(), |i: int| items[i].json()))
}

/// The wire form of an optional list of attachments.
pub open spec fn opt_attachments_json(value: Option<Vec<Attachment>>) -> Option<JsonView> {
    match value {
        Some(items) => Some(attachments_json(items@)),
        None => None,
    }
}

/// Message options for sending to a session.
#[derive(Debug, Clone)]
pub struct MessageOptions {
    /// The message prompt.
    pub prompt: String,
    /// File or directory attachments.
    pub attachments: Option<Vec<Attachment>>,
    /// Message delivery mode (default: "enqueue").
    pub mode: Option<String>,
}

impl MessageOptions {
    /// Create new message options with a prompt.
    pub fn new(prompt: &str) -> (r: Self)
        ensures
            r.prompt@ == prompt@,
            r.attachments is None,
            r.mode is None,
    {
        MessageOptions { prompt: owned(prompt), attachments: None, mode: None }
    }

    /// Add attachments.
    pub fn attachments(self, attachments: Vec<Attachment>) -> (r: Self)
        ensures
            r == (MessageOptions { attachments: Some(attachments), ..self }),
    {
        let mut r = self;
        r.attachments = Some(attachments);
        r
    }

    /// Set the delivery mode.
    pub fn mode(self, mode: &str) -> (r: Self)
        ensures
            r.mode is Some && r.mode->0@ == mode@,
            r == (MessageOptions { mode: r.mode, ..self }),
    {
        let mut r = self;
        r.mode = Some(owned(mode));
        r
    }

    /// The attachments as a JSON array, where there are any.
    pub fn attachments_to_json(&self) -> (r: Option<Json>)
        ensures
            opt_json_view(r) == opt_attachments_json(self.attachments),
    {
        match &self.attachments {
            Some(items) => {
                let mut out: Vec<Json> = Vec::new();
                let mut i: usize = 0;
                while i < items.len()
                    invariant
                        i <= items.len(),
                        out.len() == i,
                        forall|j: int| 0 <= j < i ==> out@[j]@ == items@[j].json(),
                    decreases items.len() - i,
                {
                    out.push(items[i].to_json());
                    i += 1;
                }
                assert(crate::json::view_items(out@) =~= Seq::new(
                    items@.len(),
                    |i: int| items@[i].json(),
                ));
                Some(Json::Array(out))
            },
            None => None,
        }
    }
}

/// Response from a ping request.
#[derive(Debug, Clone)]
pub struct PingResponse {
    /// Echo of the sent message.
    pub message: String,
    /// Server timestamp.
    pub timestamp: i64,
    /// Protocol version.
    pub protocol_version: Option<i32>,
}

/// Response from session.create.
#[derive(Debug, Clone)]
pub struct SessionCreateResponse {
    /// Created session ID.
    pub session_id: String,
}

/// Response from session.send.
#[derive(Debug, Clone)]
pub struct SessionSendResponse {
    /// Message ID.
    pub message_id: String,
}

/// Response from status.get.
#[derive(Debug, Clone)]
pub struct GetStatusResponse {
    /// CLI version.
    pub version: String,
    /// Protocol version.
    pub protocol_version: i32,
}

/// Response from auth.getStatus.
#[derive(Debug, Clone)]
pub struct GetAuthStatusResponse {
    /// Whether the user is authenticated.
    pub is_authenticated: bool,
    /// Authentication type.
    pub auth_type: Option<String>,
    /// Host.
    pub host: Option<String>,
    /// Login username.
    pub login: Option<String>,
    /// Status message.
    pub status_message: Option<String>,
}

/// Model vision limits.
#[derive(Debug, Clone)]
pub struct ModelVisionLimits {
    /// Supported media types.
    pub supported_media_types: Vec<String>,
    /// Maximum number of images in a prompt.
    pub max_prompt_images: i32,
    /// Maximum image size.
    pub max_prompt_image_size: i32,
}

/// Model limits.
#[derive(Debug, Clone)]
pub struct ModelLimits {
    /// Maximum prompt tokens.
    pub max_prompt_tokens: Option<i32>,
    /// Maximum context window tokens.
    pub max_context_window_tokens: i32,
    /// Vision limits.
    pub vision: Option<ModelVisionLimits>,
}

/// Model support flags.
#[derive(Debug, Clone)]
pub struct ModelSupports {
    /// Whether the model supports vision.
    pub vision: bool,
}

/// Model capabilities.
#[derive(Debug, Clone)]
pub struct ModelCapabilities {
    /// Support flags.
    pub supports: ModelSupports,
    /// Limits.
    pub limits: ModelLimits,
}

/// Model policy.
#[derive(Debug, Clone)]
pub struct ModelPolicy {
    /// Policy state.
    pub state: String,
    /// Policy terms.
    pub terms: String,
}

/// Session list item.
#[derive(Debug, Clone)]
pub struct SessionListItem {
    /// Session ID.
    pub session_id: String,
}

/// Response from session.list.
#[derive(Debug, Clone)]
pub struct ListSessionsResponse {
    /// List of sessions.
    pub sessions: Vec<SessionListItem>,
}

/// Configuration for creating a new session. `H` is the type of the tool
/// handlers.
pub struct SessionConfig<H> {
    /// Optional custom session ID.
    pub session_id: Option<String>,
    /// Model to use for this session.
    pub model: Option<String>,
    /// Override the default configuration directory location.
    pub config_dir: Option<String>,
    /// Tools to expose to the CLI.
    pub tools: Vec<Tool<H>>,
    /// System message configuration.
    pub system_message: Option<SystemMessageConfig>,
    /// List of tool names to allow. Takes precedence over excluded_tools.
    pub available_tools: Option<Vec<String>>,
    /// List of tool names to disable.
    pub excluded_tools: Option<Vec<String>>,
    /// Enable streaming of assistant message and reasoning chunks.
    pub streaming: Option<bool>,
    /// Custom model provider configuration.
    pub provider: Option<ProviderConfig>,
    /// MCP servers for the session, by name.
    pub mcp_servers: Option<Vec<(String, Json)>>,
    /// Custom agents for the session.
    pub custom_agents: Option<Vec<CustomAgentConfig>>,
    /// Directories to load skills from.
    pub skill_directories: Option<Vec<String>>,
    /// Skill names to disable.
    pub disabled_skills: Option<Vec<String>>,
}

impl<H> SessionConfig<H> {
    /// A configuration with nothing set and no tool.
    pub open spec fn unset(self) -> bool {
        &&& self.session_id is None
        &&& self.model is None
        &&& self.config_dir is None
        &&& self.tools@.len() == 0
        &&& self.system_message is None
        &&& self.available_tools is None
        &&& self.excluded_tools is None
        &&& self.streaming is None
        &&& self.provider is None
        &&& self.mcp_servers is None
        &&& self.custom_agents is None
        &&& self.skill_directories is None
        &&& self.disabled_skills is None
    }

    /// Create a new session config.
    pub fn new() -> (r: Self)
        ensures
            r.unset(),
    {
        SessionConfig {
            session_id: None,
            model: None,
            config_dir: None,
            tools: Vec::new(),
            system_message: None,
            available_tools: None,
            excluded_tools: None,
            streaming: None,
            provider: None,
            mcp_servers: None,
            custom_agents: None,
            skill_directories: None,
            disabled_skills: None,
        }
    }

    /// Set the model.
    pub fn model(self, model: &str) -> (r: Self)
        ensures
            r.model is Some && r.model->0@ == model@,
            r == (SessionConfig { model: r.model, ..self }),
    {
        let mut r = self;
        r.model = Some(owned(model));
        r
    }

    /// Add a tool.
    pub fn tool(self, tool: Tool<H>) -> (r: Self)
        ensures
            r.tools@ == self.tools@.push(tool),
            r == (SessionConfig { tools: r.tools, ..self }),
    {
        let mut r = self;
        r.tools.push(tool);
        r
    }

    /// Set tools.
    pub fn tools(self, tools: Vec<Tool<H>>) -> (r: Self)
        ensures
            r == (SessionConfig { tools, ..self }),
    {
        let mut r = self;
        r.tools = tools;
        r
    }

    /// Enable streaming.
    pub fn streaming(self, streaming: bool) -> (r: Self)
        ensures
            r == (SessionConfig { streaming: Some(streaming), ..self }),
    {
        let mut r = self;
        r.streaming = Some(streaming);
        r
    }

    /// Set system message.
    pub fn system_message(self, config: SystemMessageConfig) -> (r: Self)
        ensures
            r == (SessionConfig { system_message: Some(config), ..self }),
    {
        let mut r = self;
        r.system_message = Some(config);
        r
    }

    /// Set provider configuration.
    pub fn provider(self, provider: ProviderConfig) -> (r: Self)
        ensures
            r == (SessionConfig { provider: Some(provider), ..self }),
    {
        let mut r = self;
        r.provider = Some(provider);
        r
    }
}

impl<H> Default for SessionConfig<H> {
    fn default() -> (r: Self)
        ensures
            r.unset(),
    {
        SessionConfig::new()
    }
}

/// Configuration for resuming a session. `H` is the type of the tool
/// handlers.
pub struct ResumeSessionConfig<H> {
    /// Tools to expose to the CLI.
    pub tools: Vec<Tool<H>>,
    /// Custom model provider configuration.
    pub provider: Option<ProviderConfig>,
    /// Enable streaming.
    pub streaming: Option<bool>,
    /// MCP servers for the session, by name.
    pub mcp_servers: Option<Vec<(String, Json)>>,
    /// Custom agents for the session.
    pub custom_agents: Option<Vec<CustomAgentConfig>>,
    /// Directories to load skills from.
    pub skill_directories: Option<Vec<String>>,
    /// Skill names to disable.
    pub disabled_skills: Option<Vec<String>>,
}

impl<H> Default for ResumeSessionConfig<H> {
    fn default() -> (r: Self)
        ensures
            r.tools@.len() == 0,
            r.provider is None,
            r.streaming is None,
            r.mcp_servers is None,
            r.custom_agents is None,
            r.skill_directories is None,
            r.disabled_skills is None,
    {
        ResumeSessionConfig {
            tools: Vec::new(),
            provider: None,
            streaming: None,
            mcp_servers: None,
            custom_agents: None,
            skill_directories: None,
            disabled_skills: None,
        }
    }
}

/// The wire form of a list of custom agents.
pub open spec fn agents_json(items: Seq<CustomAgentConfig>) -> JsonView {
    JsonView::Array(Seq::new(items.len(), |i: int| items[i].json()))
}

/// The wire form of an optional list of custom agents.
pub open spec fn opt_agents_json(value: Option<Vec<CustomAgentConfig>>) -> Option<JsonView> {
    match value {
        Some(items) => Some(agents_json(items@)),
        None => None,
    }
}

/// An optional list of custom agents as an optional JSON array.
pub fn opt_agents(value: &Option<Vec<CustomAgentConfig>>) -> (r: Option<Json>)
    ensures
        opt_json_view(r) == opt_agents_json(*value),
{
    match value {
        Some(items) => {
            let mut out: Vec<Json> = Vec::new();
            let mut i: usize = 0;
            while i < items.len()
                invariant
                    i <= items.len(),
                    out.len() == i,
                    forall|j: int| 0 <= j < i ==> out@[j]@ == items@[j].json(),
                decreases items.len() - i,
            {
                out.push(items[i].to_json());
                i += 1;
            }
            assert(crate::json::view_items(out@) =~= Seq::new(
                items@.len(),
                |i: int| items@[i].json(),
            ));
            Some(Json::Array(out))
        },
        None => None,
    }
}

/// The wire form of an optional system message configuration.
pub open spec fn opt_system_message_json(value: Option<SystemMessageConfig>) -> Option<JsonView> {
    match value {
        Some(m) => Some(m.json()),
        None => None,
    }
}

/// The wire form of an optional provider configuration.
pub open spec fn opt_provider_json(value: Option<ProviderConfig>) -> Option<JsonView> {
    match value {
        Some(p) => Some(p.json()),
        None => None,
    }
}

} // verus!
