//! The client supervisor: configuration, connection state, the session
//! registry and the routing of what the server sends.

use vstd::prelude::*;
use vstd::string::*;
use vstd::utf8::is_ascii_chars;
use crate::error::CopilotError;
use crate::events::SessionEvent;
use crate::jsonrpc::{complete_stopped, Call, Completion, EndpointState, JsonRpcClient};
use crate::json::{
    empty_object, opt_bool_json, opt_json_view, opt_string_json, opt_strings_json, view_items,
    Json, JsonView,
};
use crate::registry::{distinct_names, map_of, Registry};
use crate::session::{session_params, Delivery, Session};
use crate::text::{
    joined, decimal_string, decimal_text, ends_with, find_char, index_of, is_decimal, owned,
    parse_u16, spec_ends_with, spec_parse_u16,
};
use crate::tool::{Tool, ToolInvocation, ToolResult};
use crate::types::{
    opt_agents, opt_agents_json, opt_fields, opt_fields_json, opt_provider_json,
    opt_system_message_json, ClientOptions, ConnectionState, PingResponse, ResumeSessionConfig,
    SessionConfig, SessionListItem,
};

verus! {

/// The method of the notification that carries a session event.
pub const SESSION_EVENT_METHOD: &'static str = "session.event";

/// The method of the request with which the server calls a tool.
pub const TOOL_CALL_METHOD: &'static str = "tool.call";

/// The method of the request with which the server asks for a permission.
pub const PERMISSION_REQUEST_METHOD: &'static str = "permission.request";

/// The protocol version that this SDK speaks. A server that reports another
/// one, or none, is refused at start.
pub const SDK_PROTOCOL_VERSION: i32 = 2;

/// Get the protocol version that this SDK speaks.
pub fn get_sdk_protocol_version() -> (r: i32)
    ensures
        r == SDK_PROTOCOL_VERSION,
{
    SDK_PROTOCOL_VERSION
}

/// How long the client waits for a spawned server to announce its port, and
/// for a TCP connection to open, in seconds.
pub const CONNECT_TIMEOUT_SECONDS: u64 = 10;

/// The path of the CLI that the choices at hand give: the override where it
/// is set and not empty, else the installed one where there is one.
pub open spec fn spec_cli_path(override_path: Option<String>, installed: Option<String>) -> Option<
    String,
> {
    match override_path {
        Some(p) => if p@.len() > 0 {
            Some(p)
        } else {
            installed
        },
        None => installed,
    }
}

/// Get the path to the CLI: `override_path` is what the environment asks
/// for, `installed` the path of an installed CLI that was found.
pub fn cli_path(override_path: Option<String>, installed: Option<String>) -> (r: Option<String>)
    ensures
        r == spec_cli_path(override_path, installed),
{
    match override_path {
        Some(p) => {
            if p.as_str().unicode_len() > 0 {
                Some(p)
            } else {
                installed
            }
        },
        None => installed,
    }
}

/// A URL without `http://` or `https://` at its start.
pub open spec fn spec_strip_scheme(url: Seq<char>) -> Seq<char> {
    if "http://"@.is_prefix_of(url) {
        url.skip("http://"@.len() as int)
    } else if "https://"@.is_prefix_of(url) {
        url.skip("https://"@.len() as int)
    } else {
        url
    }
}

/// `Regex::replace` of the `regex` crate, with the pattern `^https?://` and
/// an empty replacement: the text without a scheme at its start.
#[verifier::external_body]
fn strip_scheme(url: &str) -> (r: String)
    ensures
        r@ == spec_strip_scheme(url@),
{
    regex::Regex::new(r"^https?://").unwrap().replace(url, "").to_string()
}

/// Whether a text matches the pattern `^\d+$` of the `regex` crate: one
/// character or more, each a decimal digit of some script.
pub uninterp spec fn digits_only(text: Seq<char>) -> bool;

/// `Regex::is_match` of the `regex` crate, with the pattern `^\d+$`. The
/// contract names the answer, and says of it that a match is not empty and
/// that an ASCII text matches exactly if it is a decimal numeral.
#[verifier::external_body]
fn is_digits_only(text: &str) -> (r: bool)
    ensures
        r == digits_only(text@),
        r ==> text@.len() > 0,
        is_ascii_chars(text@) ==> r == is_decimal(text@),
{
    regex::Regex::new(r"^\d+$").unwrap().is_match(text)
}

/// The digits that follow the first `listening on port ` in a line that is
/// followed by digits, as the pattern `listening on port (\d+)` of the
/// `regex` crate captures them.
pub uninterp spec fn announced_port(line: Seq<char>) -> Option<Seq<char>>;

/// `Regex::captures` of the `regex` crate, with the pattern
/// `listening on port (\d+)`: the text of the first group of the match, if
/// the line has one. The contract names the outcome and claims nothing else
/// of it.
#[verifier::external_body]
fn find_announced_port(line: &str) -> (r: Option<String>)
    ensures
        r is Some <==> announced_port(line@) is Some,
        r is Some ==> announced_port(line@) == Some(r->0@),
{
    match regex::Regex::new(r"listening on port (\d+)").unwrap().captures(line) {
        Some(found) => match found.get(1) {
            Some(digits) => Some(digits.as_str().to_string()),
            None => None,
        },
        None => None,
    }
}

/// The port that a line of the server's output announces: the digits that
/// follow `listening on port `, where they are a port number.
pub open spec fn spec_port_announcement(line: Seq<char>) -> Option<u16> {
    match announced_port(line) {
        Some(digits) => spec_parse_u16(digits),
        None => None,
    }
}

/// The port that a line of the server's output announces, if it announces
/// one.
pub fn port_announcement(line: &str) -> (r: Option<u16>)
    ensures
        r == spec_port_announcement(line@),
{
    match find_announced_port(line) {
        Some(digits) => port_of_digits(digits.as_str()),
        None => None,
    }
}

/// The port that the digits of an announcement give, if they give one.
pub fn port_of_digits(digits: &str) -> (r: Option<u16>)
    ensures
        r == spec_parse_u16(digits@),
{
    parse_u16(digits)
}

/// The message for an address whose port is no port.
pub open spec fn invalid_port(url: Seq<char>) -> Seq<char> {
    "Invalid port in cli_url: "@ + url
}

/// The message for an address that is neither a port nor a host and a port.
pub open spec fn invalid_format(url: Seq<char>) -> Seq<char> {
    "Invalid cli_url format: "@ + url + ". Expected 'host:port', 'http://host:port', or 'port'"@
}

/// The host and the port of an address without its scheme: the address is
/// either all digits, and then a port on `localhost`, or a host and a port
/// around the first colon, where an empty host is `localhost`. `all_digits`
/// says whether the address is all digits. The error is the message for the
/// address `url`.
pub open spec fn spec_endpoint(url: Seq<char>, clean: Seq<char>, all_digits: bool) -> Result<
    (Seq<char>, u16),
    Seq<char>,
> {
    if all_digits {
        match spec_parse_u16(clean) {
            Some(port) => Ok(("localhost"@, port)),
            None => Err(invalid_port(url)),
        }
    } else {
        let colon = index_of(clean, ':', 0);
        if colon >= clean.len() {
            Err(invalid_format(url))
        } else {
            match spec_parse_u16(clean.subrange(colon + 1, clean.len() as int)) {
                Some(port) => Ok(
                    (
                        if colon == 0 {
                            "localhost"@
                        } else {
                            clean.subrange(0, colon)
                        },
                        port,
                    ),
                ),
                None => Err(invalid_port(url)),
            }
        }
    }
}

/// The host and the port that an address names.
pub open spec fn spec_parse_cli_url(url: Seq<char>) -> Result<(Seq<char>, u16), Seq<char>> {
    spec_endpoint(url, spec_strip_scheme(url), digits_only(spec_strip_scheme(url)))
}

/// The host and the port of an address without its scheme, given whether it
/// is all digits.
pub fn endpoint(url: &str, clean: &str, all_digits: bool) -> (r: Result<(String, u16), CopilotError>)
    ensures
        r is Ok <==> spec_endpoint(url@, clean@, all_digits) is Ok,
        r matches Ok((host, port)) ==> (host@, port) == spec_endpoint(url@, clean@, all_digits)->Ok_0,
        r is Err ==> (r->Err_0 matches CopilotError::InvalidConfig(m) && m@ == spec_endpoint(
            url@,
            clean@,
            all_digits,
        )->Err_0),
{
    if all_digits {
        return match parse_u16(clean) {
            Some(port) => Ok((owned("localhost"), port)),
            None => Err(CopilotError::InvalidConfig(joined("Invalid port in cli_url: ", url))),
        };
    }
    let colon = match find_char(clean, ':') {
        Some(i) => i,
        None => {
            let mut message = joined("Invalid cli_url format: ", url);
            message.append(". Expected 'host:port', 'http://host:port', or 'port'");
            return Err(CopilotError::InvalidConfig(message));
        },
    };
    let n = clean.unicode_len();
    let port = match parse_u16(clean.substring_char(colon + 1, n)) {
        Some(port) => port,
        None => {
            return Err(CopilotError::InvalidConfig(joined("Invalid port in cli_url: ", url)));
        },
    };
    let host = if colon == 0 {
        owned("localhost")
    } else {
        owned(clean.substring_char(0, colon))
    };
    Ok((host, port))
}

/// Parse the address of a running server into host and port: `host:port`,
/// `http://host:port`, `https://host:port`, or a port alone.
pub fn parse_cli_url(url: &str) -> (r: Result<(String, u16), CopilotError>)
    ensures
        digits_only(spec_strip_scheme(url@)) ==> spec_strip_scheme(url@).len() > 0,
        is_ascii_chars(spec_strip_scheme(url@)) ==> digits_only(spec_strip_scheme(url@))
            == is_decimal(spec_strip_scheme(url@)),
        r is Ok <==> spec_parse_cli_url(url@) is Ok,
        r matches Ok((host, port)) ==> (host@, port) == spec_parse_cli_url(url@)->Ok_0,
        r is Err ==> (r->Err_0 matches CopilotError::InvalidConfig(m) && m@ == spec_parse_cli_url(
            url@,
        )->Err_0),
{
    let clean = strip_scheme(url);
    let all_digits = is_digits_only(clean.as_str());
    endpoint(url, clean.as_str(), all_digits)
}

/// The views of a list of strings.
pub open spec fn strings_view(items: Seq<String>) -> Seq<Seq<char>> {
    Seq::new(items.len(), |i: int| items[i]@)
}

/// The state of a client. `R` is the RPC endpoint with its transport, `C`
/// the server process and `S` a session.
pub struct ClientState<R, C, S> {
    /// Where the server executable is.
    pub cli_path: Seq<char>,
    /// The working directory for a spawned server.
    pub cwd: Option<Seq<char>>,
    /// The port to ask of a spawned server.
    pub port: Option<u16>,
    /// Whether a spawned server is spoken to over its standard streams.
    pub use_stdio: bool,
    /// The address of a running server to attach to.
    pub cli_url: Option<Seq<char>>,
    /// The log level for a spawned server.
    pub log_level: Seq<char>,
    /// Extra environment for a spawned server.
    pub env: Option<Vec<(String, String)>>,
    /// The connection state.
    pub state: ConnectionState,
    /// The sessions, by id.
    pub sessions: Map<Seq<char>, S>,
    /// The port of the server, or 0 where none is known.
    pub actual_port: u16,
    /// The host of the server.
    pub actual_host: Seq<char>,
    /// Whether the server was there before the client and is not its own.
    pub is_external_server: bool,
    /// Whether a session may start the client.
    pub auto_start: bool,
    /// Whether the client connects again when the connection is lost.
    pub auto_restart: bool,
    /// The server process, where the client spawned one.
    pub process: Option<C>,
    /// The RPC endpoint, where the client is connected.
    pub rpc_client: Option<R>,
}

/// Whether options ask both for a running server and for one to spawn.
pub open spec fn conflicting(options: ClientOptions) -> bool {
    options.cli_url is Some && ((options.use_stdio is Some && options.use_stdio->0)
        || options.cli_path is Some)
}

/// The message for options that ask both for a running server and for one
/// to spawn.
pub open spec fn conflict_message() -> Seq<char> {
    "cli_url is mutually exclusive with use_stdio and cli_path"@
}

/// The view of an optional string.
pub open spec fn opt_str_view(value: Option<String>) -> Option<Seq<char>> {
    match value {
        Some(s) => Some(s@),
        None => None,
    }
}

/// The state of a new client for the given options, or the message of the
/// configuration error. What is not set takes its default: the executable
/// `copilot`, standard streams, log level `info`, start and restart on.
/// A port, or the address of a running server, turns standard streams off;
/// an address makes the server an external one. `override_path`, where it
/// is set, is the executable whatever the options say.
pub open spec fn resolved<R, C, S>(options: ClientOptions, override_path: Option<String>) -> Result<
    ClientState<R, C, S>,
    Seq<char>,
> {
    if conflicting(options) {
        Err(conflict_message())
    } else {
        let endpoint = match options.cli_url {
            Some(url) => match spec_parse_cli_url(url@) {
                Ok(e) => Ok(Some(e)),
                Err(m) => Err(m),
            },
            None => Ok(None),
        };
        match endpoint {
            Err(m) => Err(m),
            Ok(e) => Ok(
                ClientState {
                    cli_path: match override_path {
                        Some(p) => p@,
                        None => match options.cli_path {
                            Some(p) => p@,
                            None => "copilot"@,
                        },
                    },
                    cwd: opt_str_view(options.cwd),
                    port: options.port,
                    use_stdio: if e is Some || options.port is Some {
                        false
                    } else {
                        match options.use_stdio {
                            Some(b) => b,
                            None => true,
                        }
                    },
                    cli_url: opt_str_view(options.cli_url),
                    log_level: match options.log_level {
                        Some(l) => l@,
                        None => "info"@,
                    },
                    env: options.env,
                    state: ConnectionState::Disconnected,
                    sessions: Map::empty(),
                    actual_port: match e {
                        Some(hp) => hp.1,
                        None => 0,
                    },
                    actual_host: match e {
                        Some(hp) => hp.0,
                        None => "localhost"@,
                    },
                    is_external_server: e is Some,
                    auto_start: match options.auto_start {
                        Some(b) => b,
                        None => true,
                    },
                    auto_restart: match options.auto_restart {
                        Some(b) => b,
                        None => true,
                    },
                    process: None,
                    rpc_client: None,
                },
            ),
        }
    }
}

/// The arguments for a spawned server.
pub open spec fn server_args(log_level: Seq<char>, use_stdio: bool, port: Option<u16>) -> Seq<
    Seq<char>,
> {
    let base = seq!["--server"@, "--log-level"@, log_level];
    if use_stdio {
        base.push("--stdio"@)
    } else {
        match port {
            Some(p) => base.push("--port"@).push(decimal_text(p as nat)),
            None => base,
        }
    }
}

/// How to spawn the server.
pub struct LaunchPlan<'a> {
    /// The program to run.
    pub program: String,
    /// Its arguments.
    pub args: Vec<String>,
    /// Its working directory, where one is set.
    pub cwd: Option<&'a str>,
    /// Extra environment, where some is set.
    pub env: Option<&'a Vec<(String, String)>>,
    /// Whether the server is spoken to over its standard streams; if not, it
    /// announces a port on its output.
    pub use_stdio: bool,
}

/// What a client hands back when it is stopped.
pub struct Teardown<R, C, S> {
    /// The sessions that the client had, each to be destroyed.
    pub sessions: Vec<(String, S)>,
    /// The server process, to be killed, where the client spawned it.
    pub process: Option<C>,
    /// The RPC endpoint, to be stopped.
    pub rpc_client: Option<R>,
}

/// The message of the error for a start of a client that is connected.
pub open spec fn already_connected() -> Seq<char> {
    "client is already connected"@
}

/// What a failed start hands back.
pub struct StartFailure<R> {
    /// The error that ended the start.
    pub error: CopilotError,
    /// The RPC endpoint that the client had, to be stopped.
    pub rpc_client: Option<R>,
}

/// A step of the start procedure.
#[derive(Debug, Clone, Copy, PartialEq, Eq, Structural)]
pub enum StartPhase {
    /// Spawn the server, as `start_cli_server` says; over standard streams,
    /// that is the connection too.
    Spawn,
    /// Open the TCP connection to the address that `connect_via_tcp` gives.
    Connect,
    /// Ping the server and check its protocol version.
    Verify,
    /// Nothing is left to do.
    Done,
}

/// The step that follows a step of the start procedure: a spawned server is
/// connected to over TCP unless it speaks over its standard streams, a
/// connection is verified, and verification is the last step.
pub open spec fn phase_after(finished: StartPhase, over_tcp: bool) -> StartPhase {
    match finished {
        StartPhase::Spawn => if over_tcp {
            StartPhase::Connect
        } else {
            StartPhase::Verify
        },
        StartPhase::Connect => StartPhase::Verify,
        StartPhase::Verify => StartPhase::Done,
        StartPhase::Done => StartPhase::Done,
    }
}

/// What a session call has to do before it can use the connection.
#[derive(Debug, Clone, Copy, PartialEq, Eq, Structural)]
pub enum Readiness {
    /// The client is connected.
    Ready,
    /// The client is not connected and starts by itself: start it first.
    StartFirst,
}

/// Client for interacting with the CLI server: the supervisor without its
/// process and its transport, which it keeps for the caller as `C` and `R`.
pub struct CopilotClient<R, C, S> {
    options: ClientOptions,
    process: Option<C>,
    rpc_client: Option<R>,
    state: ConnectionState,
    sessions: Registry<S>,
    actual_port: u16,
    actual_host: String,
    is_external_server: bool,
    auto_start: bool,
    auto_restart: bool,
}

impl<R, C, S> View for CopilotClient<R, C, S> {
    type V = ClientState<R, C, S>;

    closed spec fn view(&self) -> ClientState<R, C, S> {
        ClientState {
            cli_path: match self.options.cli_path {
                Some(p) => p@,
                None => "copilot"@,
            },
            cwd: opt_str_view(self.options.cwd),
            port: self.options.port,
            use_stdio: match self.options.use_stdio {
                Some(b) => b,
                None => true,
            },
            cli_url: opt_str_view(self.options.cli_url),
            log_level: match self.options.log_level {
                Some(l) => l@,
                None => "info"@,
            },
            env: self.options.env,
            state: self.state,
            sessions: self.sessions@,
            actual_port: self.actual_port,
            actual_host: self.actual_host@,
            is_external_server: self.is_external_server,
            auto_start: self.auto_start,
            auto_restart: self.auto_restart,
            process: self.process,
            rpc_client: self.rpc_client,
        }
    }
}

impl<R, C, S> CopilotClient<R, C, S> {
    /// In the registry a session id occurs once, and the options hold the
    /// executable, the transport and the log level.
    pub closed spec fn wf(self) -> bool {
        &&& self.sessions.wf()
        &&& self.options.cli_path is Some
        &&& self.options.use_stdio is Some
        &&& self.options.log_level is Some
        &&& self.options.auto_start is None
        &&& self.options.auto_restart is None
    }

    /// Create a client with the given options, or with the defaults where
    /// there are none. `override_path` is the path of the server executable
    /// that the environment asks for. Options that ask both for a running
    /// server and for one to spawn, and an address that names no host and
    /// port, are configuration errors.
    pub fn new(options: Option<ClientOptions>, override_path: Option<String>) -> (r: Result<
        Self,
        CopilotError,
    >)
        ensures
            ({
                let given = match options {
                    Some(o) => o,
                    None => ClientOptions::unset(),
                };
                &&& r is Ok <==> resolved::<R, C, S>(given, override_path) is Ok
                &&& r is Ok ==> r->Ok_0.wf() && r->Ok_0@ == resolved::<R, C, S>(
                    given,
                    override_path,
                )->Ok_0
                &&& r is Err ==> (r->Err_0 matches CopilotError::InvalidConfig(m) && m@
                    == resolved::<R, C, S>(given, override_path)->Err_0)
            }),
    {
        let mut opts = ClientOptions {
            cli_path: Some(owned("copilot")),
            cwd: None,
            port: None,
            use_stdio: Some(true),
            cli_url: None,
            log_level: Some(owned("info")),
            auto_start: None,
            auto_restart: None,
            env: None,
        };
        let mut is_external_server = false;
        let mut auto_start = true;
        let mut auto_restart = true;
        let mut actual_host = owned("localhost");
        let mut actual_port: u16 = 0;
        match options {
            Some(user_opts) => {
                let wants_stdio = match user_opts.use_stdio {
                    Some(b) => b,
                    None => false,
                };
                if user_opts.cli_url.is_some() && (wants_stdio || user_opts.cli_path.is_some()) {
                    return Err(
                        CopilotError::InvalidConfig(
                            owned("cli_url is mutually exclusive with use_stdio and cli_path"),
                        ),
                    );
                }
                match user_opts.use_stdio {
                    Some(b) => {
                        opts.use_stdio = Some(b);
                    },
                    None => {},
                }
                match user_opts.cli_url {
                    Some(url) => {
                        let (host, port) = match parse_cli_url(url.as_str()) {
                            Ok(e) => e,
                            Err(e) => {
                                return Err(e);
                            },
                        };
                        actual_host = host;
                        actual_port = port;
                        is_external_server = true;
                        opts.use_stdio = Some(false);
                        opts.cli_url = Some(url);
                    },
                    None => {},
                }
                match user_opts.cli_path {
                    Some(path) => {
                        opts.cli_path = Some(path);
                    },
                    None => {},
                }
                match user_opts.cwd {
                    Some(cwd) => {
                        opts.cwd = Some(cwd);
                    },
                    None => {},
                }
                match user_opts.port {
                    Some(port) => {
                        opts.port = Some(port);
                        opts.use_stdio = Some(false);
                    },
                    None => {},
                }
                match user_opts.log_level {
                    Some(level) => {
                        opts.log_level = Some(level);
                    },
                    None => {},
                }
                match user_opts.env {
                    Some(env) => {
                        opts.env = Some(env);
                    },
                    None => {},
                }
                match user_opts.auto_start {
                    Some(auto) => {
                        auto_start = auto;
                    },
                    None => {},
                }
                match user_opts.auto_restart {
                    Some(auto) => {
                        auto_restart = auto;
                    },
                    None => {},
                }
            },
            None => {},
        }
        match override_path {
            Some(path) => {
                opts.cli_path = Some(path);
            },
            None => {},
        }
        Ok(
            CopilotClient {
                options: opts,
                process: None,
                rpc_client: None,
                state: ConnectionState::Disconnected,
                sessions: Registry::new(),
                actual_port,
                actual_host,
                is_external_server,
                auto_start,
                auto_restart,
            },
        )
    }

    /// The options of the client, with what was not set at its default.
    pub fn options(&self) -> (r: &ClientOptions)
        requires
            self.wf(),
        ensures
            r.cli_path is Some && r.cli_path->0@ == self@.cli_path,
            r.use_stdio == Some(self@.use_stdio),
            r.log_level is Some && r.log_level->0@ == self@.log_level,
            r.auto_start is None,
            r.auto_restart is None,
            r.port == self@.port,
            opt_str_view(r.cwd) == self@.cwd,
            opt_str_view(r.cli_url) == self@.cli_url,
            r.env == self@.env,
    {
        &self.options
    }

    /// Whether a session may start the client.
    pub fn auto_start(&self) -> (r: bool)
        ensures
            r == self@.auto_start,
    {
        self.auto_start
    }

    /// Whether the client connects again when the connection is lost.
    pub fn auto_restart(&self) -> (r: bool)
        ensures
            r == self@.auto_restart,
    {
        self.auto_restart
    }

    /// Whether the server was there before the client and is not its own.
    pub fn is_external_server(&self) -> (r: bool)
        ensures
            r == self@.is_external_server,
    {
        self.is_external_server
    }

    /// Get the current connection state.
    pub fn get_state(&self) -> (r: ConnectionState)
        ensures
            r == self@.state,
    {
        self.state
    }

    /// Begins to start the client, and says what to do first. A connected
    /// client is not started again: the call is refused with an error, and
    /// the client stays as it is. Any other client becomes `Connecting`, and a
    /// server is spawned unless the client attaches to one.
    pub fn start(&mut self) -> (r: Result<StartPhase, CopilotError>)
        requires
            old(self).wf(),
        ensures
            final(self).wf(),
            old(self)@.state == ConnectionState::Connected ==> (r matches Err(
                CopilotError::Connection(m),
            ) && m@ == already_connected()) && final(self)@ == old(self)@,
            old(self)@.state != ConnectionState::Connected ==> final(self)@ == (ClientState {
                state: ConnectionState::Connecting,
                ..old(self)@
            }) && r == Ok::<StartPhase, CopilotError>(
                if old(self)@.is_external_server {
                    StartPhase::Connect
                } else {
                    StartPhase::Spawn
                },
            ),
    {
        if self.state == ConnectionState::Connected {
            return Err(CopilotError::Connection(owned("client is already connected")));
        }
        self.state = ConnectionState::Connecting;
        if self.is_external_server {
            Ok(StartPhase::Connect)
        } else {
            Ok(StartPhase::Spawn)
        }
    }

    /// The step of the start procedure that follows one that went well.
    pub fn next_phase(&self, finished: StartPhase) -> (r: StartPhase)
        ensures
            r == phase_after(finished, !(self@.use_stdio && !self@.is_external_server)),
    {
        match finished {
            StartPhase::Spawn => {
                if self.connect_to_server() {
                    StartPhase::Connect
                } else {
                    StartPhase::Verify
                }
            },
            StartPhase::Connect => StartPhase::Verify,
            StartPhase::Verify => StartPhase::Done,
            StartPhase::Done => StartPhase::Done,
        }
    }

    /// Ends a start. Where every step went well the client is `Connected`.
    /// Where one failed, a wrong or missing protocol version among them, the
    /// client is in `Error` and the connection is dropped: the client keeps no
    /// RPC endpoint, and the one it had is handed back with the error, to be
    /// stopped.
    pub fn finish_start(&mut self, outcome: Result<(), CopilotError>) -> (r: Result<
        (),
        StartFailure<R>,
    >)
        requires
            old(self).wf(),
        ensures
            final(self).wf(),
            outcome is Ok ==> r is Ok && final(self)@ == (ClientState {
                state: ConnectionState::Connected,
                ..old(self)@
            }),
            outcome is Err ==> r is Err && r->Err_0.error == outcome->Err_0
                && r->Err_0.rpc_client == old(self)@.rpc_client && final(self)@ == (ClientState {
                state: ConnectionState::Error,
                rpc_client: None,
                ..old(self)@
            }),
    {
        match outcome {
            Ok(_) => {
                self.state = ConnectionState::Connected;
                Ok(())
            },
            Err(error) => {
                self.state = ConnectionState::Error;
                let rpc_client = self.rpc_client.take();
                Err(StartFailure { error, rpc_client })
            },
        }
    }

    /// How to spawn the server: the executable with `--server`, the log
    /// level, and `--stdio` or the port to listen on. An executable whose
    /// name ends in `.js` is run by `node`.
    pub fn start_cli_server(&self) -> (r: LaunchPlan<'_>)
        ensures
            r.use_stdio == self@.use_stdio,
            r.env is Some <==> self@.env is Some,
            r.env is Some ==> *r.env->0 == self@.env->0,
            r.cwd is Some <==> self@.cwd is Some,
            r.cwd is Some ==> r.cwd->0@ == self@.cwd->0,
            spec_ends_with(self@.cli_path, ".js"@) ==> r.program@ == "node"@ && strings_view(
                r.args@,
            ) == seq![self@.cli_path] + server_args(
                self@.log_level,
                self@.use_stdio,
                self@.port,
            ),
            !spec_ends_with(self@.cli_path, ".js"@) ==> r.program@ == self@.cli_path
                && strings_view(r.args@) == server_args(
                self@.log_level,
                self@.use_stdio,
                self@.port,
            ),
    {
        let cli_path = match &self.options.cli_path {
            Some(p) => p.clone(),
            None => owned("copilot"),
        };
        let log_level = match &self.options.log_level {
            Some(l) => l.clone(),
            None => owned("info"),
        };
        let use_stdio = match self.options.use_stdio {
            Some(b) => b,
            None => true,
        };
        let mut args: Vec<String> = Vec::new();
        let is_script = ends_with(cli_path.as_str(), ".js");
        let program = if is_script {
            args.push(cli_path);
            owned("node")
        } else {
            cli_path
        };
        let ghost lead = strings_view(args@);
        args.push(owned("--server"));
        args.push(owned("--log-level"));
        args.push(log_level);
        if use_stdio {
            args.push(owned("--stdio"));
        } else {
            match self.options.port {
                Some(port) => {
                    args.push(owned("--port"));
                    args.push(decimal_string(port as u64));
                },
                None => {},
            }
        }
        assert(strings_view(args@) =~= lead + server_args(
            self@.log_level,
            self@.use_stdio,
            self@.port,
        ));
        assert(!is_script ==> lead =~= Seq::<Seq<char>>::empty());
        assert(is_script ==> lead =~= seq![self@.cli_path]);
        LaunchPlan {
            program,
            args,
            cwd: match &self.options.cwd {
                Some(c) => Some(c.as_str()),
                None => None,
            },
            env: self.options.env.as_ref(),
            use_stdio,
        }
    }

    /// Keeps the process of the server that was spawned.
    pub fn set_process(&mut self, process: C)
        requires
            old(self).wf(),
        ensures
            final(self).wf(),
            final(self)@ == (ClientState { process: Some(process), ..old(self)@ }),
    {
        self.process = Some(process);
    }

    /// Keeps the port that the spawned server announced.
    pub fn set_port(&mut self, port: u16)
        requires
            old(self).wf(),
        ensures
            final(self).wf(),
            final(self)@ == (ClientState { actual_port: port, ..old(self)@ }),
    {
        self.actual_port = port;
    }

    /// Keeps the RPC endpoint of the connection that was made.
    pub fn set_rpc_client(&mut self, rpc_client: R)
        requires
            old(self).wf(),
        ensures
            final(self).wf(),
            final(self)@ == (ClientState { rpc_client: Some(rpc_client), ..old(self)@ }),
    {
        self.rpc_client = Some(rpc_client);
    }

    /// Whether a TCP connection is still to be made: not for a server that
    /// the client spawned and speaks to over its standard streams.
    pub fn connect_to_server(&self) -> (r: bool)
        ensures
            r == !(self@.use_stdio && !self@.is_external_server),
    {
        let use_stdio = match self.options.use_stdio {
            Some(b) => b,
            None => true,
        };
        !(use_stdio && !self.is_external_server)
    }

    /// The address to connect to over TCP: the host, a colon and the port.
    /// Without a port there is none.
    pub fn connect_via_tcp(&self) -> (r: Result<String, CopilotError>)
        ensures
            self@.actual_port == 0 ==> (r matches Err(CopilotError::Connection(m)) && m@
                == "server port not available"@),
            self@.actual_port != 0 ==> r is Ok && r->Ok_0@ == self@.actual_host + ":"@
                + decimal_text(self@.actual_port as nat),
    {
        if self.actual_port == 0 {
            return Err(CopilotError::Connection(owned("server port not available")));
        }
        let mut addr = joined(self.actual_host.as_str(), ":");
        addr.append(decimal_string(self.actual_port as u64).as_str());
        Ok(addr)
    }

    /// The RPC endpoint, or an error where the client has none.
    pub fn get_rpc_client(&self) -> (r: Result<&R, CopilotError>)
        ensures
            r is Ok <==> self@.rpc_client is Some,
            r is Ok ==> *r->Ok_0 == self@.rpc_client->0,
            r is Err ==> r->Err_0 is NotConnected,
    {
        match &self.rpc_client {
            Some(rpc) => Ok(rpc),
            None => Err(CopilotError::NotConnected),
        }
    }

    /// What a session call has to do before it can use the connection: a
    /// client that is not connected and does not start by itself gives an
    /// error.
    pub fn ensure_connected(&self) -> (r: Result<Readiness, CopilotError>)
        ensures
            self@.state == ConnectionState::Connected ==> r == Ok::<Readiness, CopilotError>(
                Readiness::Ready,
            ),
            self@.state != ConnectionState::Connected && self@.auto_start ==> r == Ok::<
                Readiness,
                CopilotError,
            >(Readiness::StartFirst),
            self@.state != ConnectionState::Connected && !self@.auto_start ==> r is Err
                && r->Err_0 is NotConnected,
    {
        if self.state == ConnectionState::Connected {
            Ok(Readiness::Ready)
        } else if self.auto_start {
            Ok(Readiness::StartFirst)
        } else {
            Err(CopilotError::NotConnected)
        }
    }

    /// Whether the loss of the connection calls for a new one: the client
    /// was connected and restarts by itself.
    pub fn handle_disconnect(&self) -> (r: bool)
        ensures
            r == (self@.auto_restart && self@.state == ConnectionState::Connected),
    {
        self.auto_restart && self.state == ConnectionState::Connected
    }

    /// Stops the client: it is `Disconnected` and has no session, no RPC
    /// endpoint and, where it spawned the server, no process and no port.
    /// What it had is handed back: the sessions to destroy, the process to
    /// kill, the endpoint to stop.
    pub fn stop(&mut self) -> (r: Teardown<R, C, S>)
        requires
            old(self).wf(),
        ensures
            final(self).wf(),
            distinct_names(r.sessions@),
            map_of(r.sessions@) == old(self)@.sessions,
            r.sessions@.len() == old(self)@.sessions.len(),
            r.rpc_client == old(self)@.rpc_client,
            r.process == (if old(self)@.is_external_server {
                None
            } else {
                old(self)@.process
            }),
            final(self)@ == (ClientState {
                sessions: Map::empty(),
                rpc_client: None,
                process: if old(self)@.is_external_server {
                    old(self)@.process
                } else {
                    None
                },
                actual_port: if old(self)@.is_external_server {
                    old(self)@.actual_port
                } else {
                    0
                },
                state: ConnectionState::Disconnected,
                ..old(self)@
            }),
    {
        let sessions = self.sessions.drain();
        let process = if self.is_external_server {
            None
        } else {
            self.process.take()
        };
        let rpc_client = self.rpc_client.take();
        self.state = ConnectionState::Disconnected;
        if !self.is_external_server {
            self.actual_port = 0;
        }
        Teardown { sessions, process, rpc_client }
    }

    /// Stops the client without a word to the server: like `stop`, but the
    /// sessions are dropped where they are, and none is handed back to be
    /// destroyed.
    pub fn force_stop(&mut self) -> (r: Teardown<R, C, S>)
        requires
            old(self).wf(),
        ensures
            final(self).wf(),
            r.sessions@.len() == 0,
            r.rpc_client == old(self)@.rpc_client,
            r.process == (if old(self)@.is_external_server {
                None
            } else {
                old(self)@.process
            }),
            final(self)@ == (ClientState {
                sessions: Map::empty(),
                rpc_client: None,
                process: if old(self)@.is_external_server {
                    old(self)@.process
                } else {
                    None
                },
                actual_port: if old(self)@.is_external_server {
                    old(self)@.actual_port
                } else {
                    0
                },
                state: ConnectionState::Disconnected,
                ..old(self)@
            }),
    {
        self.sessions.clear();
        let process = if self.is_external_server {
            None
        } else {
            self.process.take()
        };
        let rpc_client = self.rpc_client.take();
        self.state = ConnectionState::Disconnected;
        if !self.is_external_server {
            self.actual_port = 0;
        }
        Teardown { sessions: Vec::new(), process, rpc_client }
    }

    /// Tears the client down after the connection was lost, before it starts
    /// again: like `stop`. Each session that is handed back is owed a
    /// `session.error` event that says so, before it is destroyed.
    pub fn reconnect(&mut self) -> (r: Teardown<R, C, S>)
        requires
            old(self).wf(),
        ensures
            final(self).wf(),
            distinct_names(r.sessions@),
            map_of(r.sessions@) == old(self)@.sessions,
            r.sessions@.len() == old(self)@.sessions.len(),
            r.rpc_client == old(self)@.rpc_client,
            r.process == (if old(self)@.is_external_server {
                None
            } else {
                old(self)@.process
            }),
            final(self)@ == (ClientState {
                sessions: Map::empty(),
                rpc_client: None,
                process: if old(self)@.is_external_server {
                    old(self)@.process
                } else {
                    None
                },
                actual_port: if old(self)@.is_external_server {
                    old(self)@.actual_port
                } else {
                    0
                },
                state: ConnectionState::Disconnected,
                ..old(self)@
            }),
    {
        self.stop()
    }

    /// Puts a session that the server created or resumed into the registry,
    /// in place of any that was there under its id.
    pub fn add_session(&mut self, session_id: String, session: S) -> (r: Option<S>)
        requires
            old(self).wf(),
        ensures
            final(self).wf(),
            r is Some <==> old(self)@.sessions.contains_key(session_id@),
            r is Some ==> r->0 == old(self)@.sessions[session_id@],
            final(self)@ == (ClientState {
                sessions: old(self)@.sessions.insert(session_id@, session),
                ..old(self)@
            }),
    {
        self.sessions.insert(session_id, session)
    }

    /// Takes a session that the server deleted out of the registry.
    pub fn forget_session(&mut self, session_id: &str) -> (r: Option<S>)
        requires
            old(self).wf(),
        ensures
            final(self).wf(),
            r is Some <==> old(self)@.sessions.contains_key(session_id@),
            r is Some ==> r->0 == old(self)@.sessions[session_id@],
            final(self)@ == (ClientState {
                sessions: old(self)@.sessions.remove(session_id@),
                ..old(self)@
            }),
    {
        self.sessions.remove(session_id)
    }

    /// The session with the given id.
    pub fn session(&self, session_id: &str) -> (r: Option<&S>)
        requires
            self.wf(),
        ensures
            r is Some <==> self@.sessions.contains_key(session_id@),
            r is Some ==> *r->0 == self@.sessions[session_id@],
    {
        self.sessions.get(session_id)
    }

    /// The number of sessions.
    pub fn session_count(&self) -> (r: usize)
        requires
            self.wf(),
        ensures
            r == self@.sessions.len(),
            r == 0 <==> self@.sessions == Map::<Seq<char>, S>::empty(),
    {
        self.sessions.len()
    }

    /// The session that a tool call is for, or, where the registry has no
    /// such session, the failure to answer with: the tool is not supported.
    pub fn tool_session(&self, call: &ToolInvocation) -> (r: Result<&S, ToolResult>)
        requires
            self.wf(),
        ensures
            self@.sessions.contains_key(call.session_id@) ==> r is Ok && *r->Ok_0
                == self@.sessions[call.session_id@],
            !self@.sessions.contains_key(call.session_id@) ==> r is Err
                && r->Err_0.is_unsupported(call.tool_name@),
    {
        match self.sessions.get(call.session_id.as_str()) {
            Some(session) => Ok(session),
            None => Err(ToolResult::unsupported(call.tool_name.as_str())),
        }
    }

    /// The session that a permission request is for, or, where the registry
    /// has no such session, the denial to answer with.
    pub fn permission_session(&self, call: &PermissionCall) -> (r: Result<
        &S,
        crate::types::PermissionRequestResult,
    >)
        requires
            self.wf(),
        ensures
            self@.sessions.contains_key(call.session_id@) ==> r is Ok && *r->Ok_0
                == self@.sessions[call.session_id@],
            !self@.sessions.contains_key(call.session_id@) ==> r is Err && r->Err_0.kind@
                == "denied-no-approval-rule-and-could-not-request-from-user"@
                && r->Err_0.rules is None,
    {
        match self.sessions.get(call.session_id.as_str()) {
            Some(session) => Ok(session),
            None => Err(crate::types::PermissionRequestResult::denied()),
        }
    }

    /// What a request of the client gives: the call to send, or an error
    /// where the client has no RPC endpoint.
    pub open spec fn request_of(
        self,
        method: Seq<char>,
        params: JsonView,
        r: Result<Call, CopilotError>,
    ) -> bool {
        if self@.rpc_client is Some {
            r is Ok && r->Ok_0.is(method, params)
        } else {
            r is Err && r->Err_0 is NotConnected
        }
    }

    /// The `session.create` to send for a configuration. The answer gives
    /// the id of the session: see [`session_id_of`].
    pub fn create_session<H>(&self, config: &SessionConfig<H>) -> (r: Result<Call, CopilotError>)
        ensures
            self.request_of("session.create"@, create_session_params(*config), r),
    {
        match &self.rpc_client {
            Some(_) => Ok(
                Call { method: owned("session.create"), params: build_create_params(config) },
            ),
            None => Err(CopilotError::NotConnected),
        }
    }

    /// The `session.resume` to send for a session and a configuration. The
    /// answer gives the id of the session: see [`session_id_of`].
    pub fn resume_session<H>(&self, session_id: &str, config: &ResumeSessionConfig<H>) -> (r:
        Result<Call, CopilotError>)
        ensures
            self.request_of("session.resume"@, resume_session_params(session_id@, *config), r),
    {
        match &self.rpc_client {
            Some(_) => Ok(
                Call {
                    method: owned("session.resume"),
                    params: build_resume_params(session_id, config),
                },
            ),
            None => Err(CopilotError::NotConnected),
        }
    }

    /// The `ping` to send. The answer is read by [`ping_response`].
    pub fn ping(&self, message: Option<&str>) -> (r: Result<Call, CopilotError>)
        ensures
            self.request_of("ping"@, ping_params(message), r),
    {
        match &self.rpc_client {
            Some(_) => Ok(Call { method: owned("ping"), params: build_ping_params(message) }),
            None => Err(CopilotError::NotConnected),
        }
    }

    /// The `session.delete` to send for a session. Once the server has
    /// deleted it, `forget_session` takes it out of the registry.
    pub fn delete_session(&self, session_id: &str) -> (r: Result<Call, CopilotError>)
        ensures
            self.request_of("session.delete"@, session_params(session_id@), r),
    {
        match &self.rpc_client {
            Some(_) => Ok(
                Call { method: owned("session.delete"), params: build_session_params(session_id) },
            ),
            None => Err(CopilotError::NotConnected),
        }
    }

    /// The `session.list` to send. The answer is read by
    /// [`sessions_listed`].
    pub fn list_sessions(&self) -> (r: Result<Call, CopilotError>)
        ensures
            self.request_of("session.list"@, empty_object(), r),
    {
        match &self.rpc_client {
            Some(_) => Ok(Call { method: owned("session.list"), params: Json::object() }),
            None => Err(CopilotError::NotConnected),
        }
    }

    /// Where a notification goes: a `session.event` for a session of the
    /// registry goes to that session, with the event that it carries.
    /// Anything else goes nowhere: another method, parameters that name no
    /// session or carry no event, and a session that the registry does not
    /// have.
    pub fn route_event(&self, method: &str, params: &Json) -> (r: Option<(&S, SessionEvent)>)
        requires
            self.wf(),
        ensures
            match spec_session_event(method@, params@) {
                Some(notice) => if self@.sessions.contains_key(notice.session_id) {
                    r matches Some((session, event)) && *session
                        == self@.sessions[notice.session_id] && event.holds(notice.event)
                } else {
                    r is None
                },
                None => r is None,
            },
    {
        match session_event(method, params) {
            Some(notice) => match self.sessions.get(notice.session_id.as_str()) {
                Some(session) => Some((session, notice.event)),
                None => None,
            },
            None => None,
        }
    }
}

/// What a client that holds its endpoint itself hands back when it is shut
/// down.
pub struct Shutdown<S, H, N, D, C, X> {
    /// The sessions that the client had, each to be destroyed.
    pub sessions: Vec<(String, X)>,
    /// The server process, to be killed, where the client spawned it.
    pub process: Option<C>,
    /// The endpoint, stopped.
    pub endpoint: Option<JsonRpcClient<S, H, N, D>>,
    /// The requests that waited on the endpoint, each with the "client
    /// stopped" error that its caller is owed.
    pub completions: Vec<Completion<S>>,
}

impl<S, H, N, D, C, X> CopilotClient<JsonRpcClient<S, H, N, D>, C, X> {
    /// Whether the endpoint that the client holds, where it holds one, is a
    /// valid one.
    pub open spec fn endpoint_wf(self) -> bool {
        self@.rpc_client is Some ==> self@.rpc_client->0.wf()
    }

    /// Stops a client that holds its endpoint itself, and the endpoint with
    /// it. The client ends as `stop` leaves it. The endpoint is handed back
    /// stopped: no request waits on it, none will, and it ignores every body
    /// that arrives from now on, so that no response is delivered any more.
    /// Every request that waited is handed back once, with the "client
    /// stopped" error that completes its caller.
    pub fn shut_down(&mut self) -> (r: Shutdown<S, H, N, D, C, X>)
        requires
            old(self).wf(),
            old(self).endpoint_wf(),
        ensures
            final(self).wf(),
            final(self).endpoint_wf(),
            distinct_names(r.sessions@),
            map_of(r.sessions@) == old(self)@.sessions,
            r.sessions@.len() == old(self)@.sessions.len(),
            r.process == (if old(self)@.is_external_server {
                None
            } else {
                old(self)@.process
            }),
            final(self)@ == (ClientState {
                sessions: Map::empty(),
                rpc_client: None,
                process: if old(self)@.is_external_server {
                    old(self)@.process
                } else {
                    None
                },
                actual_port: if old(self)@.is_external_server {
                    old(self)@.actual_port
                } else {
                    0
                },
                state: ConnectionState::Disconnected,
                ..old(self)@
            }),
            old(self)@.rpc_client is None ==> r.endpoint is None && r.completions@.len() == 0,
            old(self)@.rpc_client is Some ==> r.endpoint is Some && r.endpoint->0.wf()
                && r.endpoint->0@ == (EndpointState {
                pending: Map::empty(),
                running: false,
                ..old(self)@.rpc_client->0@
            }) && r.completions@.len() == old(self)@.rpc_client->0@.pending.len(),
            forall|i: int|
                0 <= i < r.completions@.len() ==> (#[trigger] r.completions@[i]).error
                    is ClientStopped && old(self)@.rpc_client->0@.pending.contains_key(
                    r.completions@[i].id@,
                ) && old(self)@.rpc_client->0@.pending[r.completions@[i].id@]
                    == r.completions@[i].slot,
            forall|i: int, j: int|
                0 <= i < j < r.completions@.len() ==> (#[trigger] r.completions@[i]).id@ != (
                #[trigger] r.completions@[j]).id@,
    {
        let teardown = self.stop();
        match teardown.rpc_client {
            Some(endpoint) => {
                let mut endpoint = endpoint;
                let waiting = endpoint.stop();
                proof {
                    assert forall|i: int| 0 <= i < waiting@.len() implies map_of(
                        waiting@,
                    ).contains_key((#[trigger] waiting@[i]).0@) && map_of(waiting@)[waiting@[i].0@]
                        == waiting@[i].1 by {
                        crate::registry::lemma_map_of_entry(waiting@, i);
                    }
                }
                let completions = complete_stopped(waiting);
                Shutdown {
                    sessions: teardown.sessions,
                    process: teardown.process,
                    endpoint: Some(endpoint),
                    completions,
                }
            },
            None => Shutdown {
                sessions: teardown.sessions,
                process: teardown.process,
                endpoint: None,
                completions: Vec::new(),
            },
        }
    }
}

/// The subscribers among the deliveries of one session, in order.
pub open spec fn subscribers_of<F>(deliveries: Seq<(u64, F)>) -> Seq<F> {
    Seq::new(deliveries.len(), |i: int| deliveries[i].1)
}

/// The subscribers that an event for every session of a list is delivered
/// to: those of the first session in their order, then those of the next,
/// and so on.
pub open spec fn all_deliveries<F, T, P>(sessions: Seq<(String, Session<F, T, P>)>) -> Seq<F>
    decreases sessions.len(),
{
    if sessions.len() == 0 {
        Seq::empty()
    } else {
        all_deliveries(sessions.drop_last()) + subscribers_of(sessions.last().1@.deliveries())
    }
}

/// An event for every session of a list reaches every subscriber of every
/// session: whichever session of the list one takes, and whichever of the
/// subscribers that it delivers to, that subscriber is among the deliveries.
pub proof fn lemma_every_subscriber_reached<F, T, P>(
    sessions: Seq<(String, Session<F, T, P>)>,
    k: int,
    i: int,
)
    requires
        0 <= k < sessions.len(),
        0 <= i < sessions[k].1@.deliveries().len(),
    ensures
        exists|j: int|
            0 <= j < all_deliveries(sessions).len() && #[trigger] all_deliveries(sessions)[j]
                == sessions[k].1@.deliveries()[i].1,
    decreases sessions.len(),
{
    let front = sessions.drop_last();
    let earlier = all_deliveries(front);
    let last = subscribers_of(sessions.last().1@.deliveries());
    if k == sessions.len() - 1 {
        assert(all_deliveries(sessions)[earlier.len() + i] == last[i]);
    } else {
        assert(front[k] == sessions[k]);
        lemma_every_subscriber_reached(front, k, i);
        let j = choose|j: int|
            0 <= j < earlier.len() && #[trigger] earlier[j] == sessions[k].1@.deliveries()[i].1;
        assert(all_deliveries(sessions)[j] == earlier[j]);
    }
}

impl<R, C, F, T, P> CopilotClient<R, C, Session<F, T, P>> {
    /// The sessions of the registry, in the order in which they came.
    pub closed spec fn session_list(self) -> Seq<(String, Session<F, T, P>)> {
        self.sessions.entries()
    }

    /// The sessions of the list are those of the registry, each once.
    pub proof fn lemma_session_list(self)
        requires
            self.wf(),
        ensures
            distinct_names(self.session_list()),
            map_of(self.session_list()) == self@.sessions,
    {
    }

    /// Tells every session that the connection was lost, before the client
    /// is torn down to connect again: the deliveries of `event`, a
    /// `session.error` of the client's own making, one to every subscriber
    /// of every session of the registry.
    pub fn invalidate_sessions<'a>(&'a self, event: &'a SessionEvent) -> (r: Vec<Delivery<'a, F>>)
        requires
            self.wf(),
        ensures
            r@.len() == all_deliveries(self.session_list()).len(),
            forall|j: int|
                0 <= j < r@.len() ==> *(#[trigger] r@[j]).subscriber == all_deliveries(
                    self.session_list(),
                )[j] && *r@[j].event == *event,
    {
        let ghost list = self.session_list();
        let mut out: Vec<Delivery<'a, F>> = Vec::new();
        let count = self.sessions.len();
        let mut k: usize = 0;
        assert(list.take(0) =~= Seq::<(String, Session<F, T, P>)>::empty());
        while k < count
            invariant
                k <= count,
                count == list.len(),
                list == self.sessions.entries(),
                out@.len() == all_deliveries(list.take(k as int)).len(),
                forall|j: int|
                    0 <= j < out@.len() ==> *(#[trigger] out@[j]).subscriber == all_deliveries(
                        list.take(k as int),
                    )[j] && *out@[j].event == *event,
            decreases count - k,
        {
            let session = self.sessions.value_at(k);
            let deliveries = session.dispatch_event(event);
            let ghost earlier = all_deliveries(list.take(k as int));
            let ghost these = subscribers_of(list[k as int].1@.deliveries());
            proof {
                assert(list.take(k + 1).drop_last() =~= list.take(k as int));
                assert(list.take(k + 1).last() == list[k as int]);
                assert(all_deliveries(list.take(k + 1)) == earlier + these);
            }
            let mut i: usize = 0;
            while i < deliveries.len()
                invariant
                    i <= deliveries.len(),
                    deliveries@.len() == these.len(),
                    forall|j: int|
                        0 <= j < deliveries@.len() ==> *(#[trigger] deliveries@[j]).subscriber
                            == these[j] && *deliveries@[j].event == *event,
                    out@.len() == earlier.len() + i,
                    forall|j: int|
                        0 <= j < out@.len() ==> *(#[trigger] out@[j]).subscriber == (earlier
                            + these)[j] && *out@[j].event == *event,
                decreases deliveries.len() - i,
            {
                out.push(Delivery { subscriber: deliveries[i].subscriber, event: deliveries[i].event });
                i += 1;
            }
            k += 1;
        }
        assert(list.take(count as int) =~= list);
        out
    }
}

/// The session and the event of a notification, where it is a
/// `session.event` whose parameters name a session and carry an event.
pub open spec fn spec_session_event(method: Seq<char>, params: JsonView) -> Option<Addressed> {
    if method == "session.event"@ && params.get_str("sessionId"@) is Some && params.get("event"@)
        is Some && SessionEvent::is_event(params.get("event"@)->0) {
        Some(
            Addressed {
                session_id: params.get_str("sessionId"@)->0,
                event: params.get("event"@)->0,
            },
        )
    } else {
        None
    }
}

/// The wire form of an event, with the id of the session that it is for.
pub struct Addressed {
    pub session_id: Seq<char>,
    pub event: JsonView,
}

/// An event, with the id of the session that it is for.
pub struct SessionNotice {
    pub session_id: String,
    pub event: SessionEvent,
}

/// The session and the event of a notification, where it is a
/// `session.event` whose parameters name a session and carry an event.
pub fn session_event(method: &str, params: &Json) -> (r: Option<SessionNotice>)
    ensures
        r is Some <==> spec_session_event(method@, params@) is Some,
        r is Some ==> r->0.session_id@ == spec_session_event(method@, params@)->0.session_id
            && r->0.event.holds(spec_session_event(method@, params@)->0.event),
{
    if !crate::text::str_eq(method, "session.event") {
        return None;
    }
    let session_id = match params.get_str("sessionId") {
        Some(id) => id,
        None => {
            return None;
        },
    };
    let event = match params.get("event") {
        Some(v) => match SessionEvent::from_json(v) {
            Some(event) => event,
            None => {
                return None;
            },
        },
        None => {
            return None;
        },
    };
    Some(SessionNotice { session_id: owned(session_id), event })
}

/// The string member under `key`, or the empty string.
pub open spec fn str_or_empty(v: JsonView, key: Seq<char>) -> Seq<char> {
    match v.get_str(key) {
        Some(s) => s,
        None => Seq::empty(),
    }
}

/// Whether the parameters of a `tool.call` name a session, a call and a
/// tool.
pub open spec fn is_tool_call(params: JsonView) -> bool {
    str_or_empty(params, "sessionId"@).len() > 0 && str_or_empty(params, "toolCallId"@).len() > 0
        && str_or_empty(params, "toolName"@).len() > 0
}

fn text_or_empty(v: &Json, key: &str) -> (r: String)
    ensures
        r@ == str_or_empty(v@, key@),
{
    match v.get_str(key) {
        Some(s) => owned(s),
        None => String::new(),
    }
}

/// Reads the parameters of a `tool.call`: the session, the call and the
/// tool, each a string that is not empty, and the arguments, or null where
/// there are none. Anything else is an invalid payload.
pub fn tool_call(params: &Json) -> (r: Result<ToolInvocation, CopilotError>)
    ensures
        r is Ok <==> is_tool_call(params@),
        r is Ok ==> r->Ok_0.session_id@ == str_or_empty(params@, "sessionId"@)
            && r->Ok_0.tool_call_id@ == str_or_empty(params@, "toolCallId"@) && r->Ok_0.tool_name@
            == str_or_empty(params@, "toolName"@) && r->Ok_0.arguments@ == (match params@.get(
            "arguments"@,
        ) {
            Some(a) => a,
            None => JsonView::Null,
        }),
        r is Err ==> (r->Err_0 matches CopilotError::InvalidResponse(m) && m@
            == "invalid tool call payload"@),
{
    let session_id = text_or_empty(params, "sessionId");
    let tool_call_id = text_or_empty(params, "toolCallId");
    let tool_name = text_or_empty(params, "toolName");
    let arguments = match params.get("arguments") {
        Some(a) => a.clone(),
        None => Json::Null,
    };
    if session_id.as_str().unicode_len() == 0 || tool_call_id.as_str().unicode_len() == 0
        || tool_name.as_str().unicode_len() == 0 {
        return Err(CopilotError::InvalidResponse(owned("invalid tool call payload")));
    }
    Ok(ToolInvocation { session_id, tool_call_id, tool_name, arguments })
}

/// The response to a `tool.call` or a `permission.request`: the result,
/// under `result`.
pub open spec fn result_response(result: JsonView) -> JsonView {
    empty_object().with("result"@, result)
}

/// The response to a `tool.call`: the tool result, under `result`.
pub fn tool_call_response(result: &ToolResult) -> (r: Json)
    ensures
        r@ == result_response(result.json()),
{
    let mut o = Json::object();
    o.set("result", result.to_json());
    o
}

/// The response to a `permission.request`: the permission result, under
/// `result`.
pub fn permission_response(result: &crate::types::PermissionRequestResult) -> (r: Json)
    ensures
        r@ == result_response(result.json()),
{
    let mut o = Json::object();
    o.set("result", result.to_json());
    o
}

/// Reads the parameters of a `permission.request`: the session that it
/// names, and the request itself, or null where there is none. Parameters
/// that name no session are answered with a denial.
pub fn permission_request(params: &Json) -> (r: Result<
    PermissionCall,
    crate::types::PermissionRequestResult,
>)
    ensures
        r is Ok <==> params@.get_str("sessionId"@) is Some,
        r is Ok ==> r->Ok_0.session_id@ == params@.get_str("sessionId"@)->0 && r->Ok_0.request@
            == (match params@.get("permissionRequest"@) {
            Some(p) => p,
            None => JsonView::Null,
        }),
        r is Err ==> r->Err_0.kind@ == "denied-no-approval-rule-and-could-not-request-from-user"@
            && r->Err_0.rules is None,
{
    match params.get_str("sessionId") {
        Some(id) => {
            let request = match params.get("permissionRequest") {
                Some(p) => p.clone(),
                None => Json::Null,
            };
            Ok(PermissionCall { session_id: owned(id), request })
        },
        None => Err(crate::types::PermissionRequestResult::denied()),
    }
}

/// A request for a permission, with the id of the session that it is for.
pub struct PermissionCall {
    pub session_id: String,
    pub request: Json,
}

/// Whether the server's protocol version is the SDK's; where it is not, or
/// where the server reports none, the error that ends the start.
pub fn verify_protocol_version(ping: &PingResponse) -> (r: Result<(), CopilotError>)
    ensures
        match ping.protocol_version {
            None => r == Err::<(), CopilotError>(
                CopilotError::ProtocolVersionNotReported { expected: SDK_PROTOCOL_VERSION },
            ),
            Some(version) => if version == SDK_PROTOCOL_VERSION {
                r is Ok
            } else {
                r == Err::<(), CopilotError>(
                    CopilotError::ProtocolVersionMismatch {
                        expected: SDK_PROTOCOL_VERSION,
                        actual: version,
                    },
                )
            },
        },
{
    let expected = get_sdk_protocol_version();
    match ping.protocol_version {
        None => Err(CopilotError::ProtocolVersionNotReported { expected }),
        Some(version) => {
            if version != expected {
                Err(CopilotError::ProtocolVersionMismatch { expected, actual: version })
            } else {
                Ok(())
            }
        },
    }
}

/// The error for a session that could not be destroyed when the client
/// stopped.
pub fn destroy_failure(session_id: &str, error: &CopilotError) -> (r: CopilotError)
    ensures
        r matches CopilotError::Session(m) && m@ == destroy_message(session_id@, *error),
{
    let mut message = joined("failed to destroy session ", session_id);
    message.append(": ");
    message.append(error.to_string().as_str());
    CopilotError::Session(message)
}

/// The message of the error for a session that could not be destroyed.
pub open spec fn destroy_message(session_id: Seq<char>, error: CopilotError) -> Seq<char> {
    "failed to destroy session "@ + session_id + ": "@ + error.text()
}

/// The messages of the errors of a stop, as far as sessions go: one for each
/// session that could not be destroyed, in order.
pub open spec fn destroy_messages(outcomes: Seq<(String, Result<(), CopilotError>)>) -> Seq<
    Seq<char>,
>
    decreases outcomes.len(),
{
    if outcomes.len() == 0 {
        Seq::empty()
    } else {
        let earlier = destroy_messages(outcomes.drop_last());
        match outcomes.last().1 {
            Ok(_) => earlier,
            Err(e) => earlier.push(destroy_message(outcomes.last().0@, e)),
        }
    }
}

/// The errors that a stop hands back, from what became of each session and
/// of the server process: a session error for each session that could not
/// be destroyed, in order, and then a process error where the process could
/// not be killed. Where all went well there is none.
pub fn stop_errors(
    destroyed: &Vec<(String, Result<(), CopilotError>)>,
    killed: &Result<(), String>,
) -> (r: Vec<CopilotError>)
    ensures
        r@.len() == destroy_messages(destroyed@).len() + (if killed is Err {
            1int
        } else {
            0int
        }),
        forall|i: int|
            0 <= i < destroy_messages(destroyed@).len() ==> (#[trigger] r@[i] matches CopilotError::Session(
                m,
            ) && m@ == destroy_messages(destroyed@)[i]),
        killed is Err ==> (r@[r@.len() - 1] matches CopilotError::Process(m) && m@
            == "failed to kill CLI process: "@ + killed->Err_0@),
{
    let mut errors: Vec<CopilotError> = Vec::new();
    let mut i: usize = 0;
    assert(destroyed@.take(0) =~= Seq::<(String, Result<(), CopilotError>)>::empty());
    while i < destroyed.len()
        invariant
            i <= destroyed.len(),
            errors@.len() == destroy_messages(destroyed@.take(i as int)).len(),
            forall|j: int|
                0 <= j < errors@.len() ==> (#[trigger] errors@[j] matches CopilotError::Session(m)
                    && m@ == destroy_messages(destroyed@.take(i as int))[j]),
        decreases destroyed.len() - i,
    {
        proof {
            assert(destroyed@.take(i + 1).drop_last() =~= destroyed@.take(i as int));
            assert(destroyed@.take(i + 1).last() == destroyed@[i as int]);
        }
        match &destroyed[i].1 {
            Ok(_) => {},
            Err(e) => {
                errors.push(destroy_failure(destroyed[i].0.as_str(), e));
            },
        }
        i += 1;
    }
    assert(destroyed@.take(destroyed@.len() as int) =~= destroyed@);
    match killed {
        Ok(_) => {},
        Err(cause) => {
            errors.push(kill_failure(cause.as_str()));
        },
    }
    errors
}

/// The error for a server process that could not be killed.
pub fn kill_failure(cause: &str) -> (r: CopilotError)
    ensures
        r matches CopilotError::Process(m) && m@ == "failed to kill CLI process: "@ + cause@,
{
    CopilotError::Process(joined("failed to kill CLI process: ", cause))
}

/// The error for a server that could not be spawned.
pub fn spawn_failure(cause: &str) -> (r: CopilotError)
    ensures
        r matches CopilotError::Process(m) && m@ == "failed to start CLI server: "@ + cause@,
{
    CopilotError::Process(joined("failed to start CLI server: ", cause))
}

/// The error for a TCP connection that could not be opened.
pub fn connect_failure(address: &str, cause: &str) -> (r: CopilotError)
    ensures
        r matches CopilotError::Connection(m) && m@ == "failed to connect to CLI server at "@
            + address@ + ": "@ + cause@,
{
    let mut message = joined("failed to connect to CLI server at ", address);
    message.append(": ");
    message.append(cause);
    CopilotError::Connection(message)
}

/// An integer brought into the range of 32 bits: itself where it is in the
/// range, else the end of the range that is nearest to it.
pub open spec fn clamp_i32(v: int) -> int {
    if v < i32::MIN {
        i32::MIN as int
    } else if v > i32::MAX {
        i32::MAX as int
    } else {
        v
    }
}

/// An integer brought into the range of 32 bits.
pub fn saturate_i32(v: i64) -> (r: i32)
    ensures
        r == clamp_i32(v as int),
{
    if v < -2147483648 {
        -2147483648
    } else if v > 2147483647 {
        2147483647
    } else {
        v as i32
    }
}

/// The parameters of `ping`: the message, where there is one.
pub open spec fn ping_params(message: Option<&str>) -> JsonView {
    match message {
        Some(m) => empty_object().with("message"@, JsonView::String(m@)),
        None => empty_object(),
    }
}

fn build_ping_params(message: Option<&str>) -> (r: Json)
    ensures
        r@ == ping_params(message),
{
    let mut params = Json::object();
    match message {
        Some(m) => {
            params.set("message", Json::string(m));
        },
        None => {},
    }
    params
}

/// The integer member under `key`, where there is one.
pub open spec fn get_i64(v: JsonView, key: Seq<char>) -> Option<i64> {
    match v.get(key) {
        Some(x) => x.as_i64(),
        None => None,
    }
}

/// What the server answered to `ping`: its message, or the empty string;
/// its timestamp, or 0; and its protocol version, where it reports one. A
/// version beyond the range of 32 bits is read as the nearest end of the
/// range, so that it stays different from every version within it.
pub fn ping_response(result: &Json) -> (r: PingResponse)
    ensures
        r.message@ == str_or_empty(result@, "message"@),
        r.timestamp == (match get_i64(result@, "timestamp"@) {
            Some(t) => t,
            None => 0,
        }),
        r.protocol_version is Some <==> get_i64(result@, "protocolVersion"@) is Some,
        r.protocol_version is Some ==> r.protocol_version->0 == clamp_i32(
            get_i64(result@, "protocolVersion"@)->0 as int,
        ),
{
    let message = text_or_empty(result, "message");
    let timestamp = match result.get("timestamp") {
        Some(t) => match t.as_i64() {
            Some(t) => t,
            None => 0,
        },
        None => 0,
    };
    let protocol_version = match result.get("protocolVersion") {
        Some(v) => match v.as_i64() {
            Some(v) => Some(saturate_i32(v)),
            None => None,
        },
        None => None,
    };
    PingResponse { message, timestamp, protocol_version }
}

/// Negotiates the protocol version on the server's answer to `ping`: the
/// start goes on exactly where the server reports the version of the SDK.
/// A server that reports none, and one that reports any other number, end
/// the start with an error.
pub fn negotiate(result: &Json) -> (r: Result<PingResponse, CopilotError>)
    ensures
        r is Ok <==> get_i64(result@, "protocolVersion"@) == Some(SDK_PROTOCOL_VERSION as i64),
        r is Ok ==> r->Ok_0.protocol_version == Some(SDK_PROTOCOL_VERSION),
        get_i64(result@, "protocolVersion"@) is None ==> r == Err::<PingResponse, CopilotError>(
            CopilotError::ProtocolVersionNotReported { expected: SDK_PROTOCOL_VERSION },
        ),
        get_i64(result@, "protocolVersion"@) is Some && get_i64(result@, "protocolVersion"@)
            != Some(SDK_PROTOCOL_VERSION as i64) ==> r == Err::<PingResponse, CopilotError>(
            CopilotError::ProtocolVersionMismatch {
                expected: SDK_PROTOCOL_VERSION,
                actual: clamp_i32(get_i64(result@, "protocolVersion"@)->0 as int) as i32,
            },
        ),
{
    let pong = ping_response(result);
    match verify_protocol_version(&pong) {
        Ok(_) => Ok(pong),
        Err(e) => Err(e),
    }
}

/// The id of the session that the server created or resumed, from its
/// answer.
pub fn session_id_of(result: &Json) -> (r: Result<String, CopilotError>)
    ensures
        r is Ok <==> result@.get_str("sessionId"@) is Some,
        r is Ok ==> result@.get_str("sessionId"@) == Some(r->Ok_0@),
        r is Err ==> (r->Err_0 matches CopilotError::InvalidResponse(m) && m@
            == "missing sessionId"@),
{
    match result.get_str("sessionId") {
        Some(id) => Ok(owned(id)),
        None => Err(CopilotError::InvalidResponse(owned("missing sessionId"))),
    }
}

/// The items that name a session, in order.
pub open spec fn sessions_among(items: Seq<JsonView>) -> Seq<Seq<char>>
    decreases items.len(),
{
    if items.len() == 0 {
        Seq::empty()
    } else {
        match items.last().get_str("sessionId"@) {
            Some(id) => sessions_among(items.drop_last()).push(id),
            None => sessions_among(items.drop_last()),
        }
    }
}

/// The sessions that the server lists.
pub open spec fn listed_sessions(result: JsonView) -> Seq<Seq<char>> {
    match result.get("sessions"@) {
        Some(JsonView::Array(items)) => sessions_among(items),
        _ => Seq::empty(),
    }
}

/// The sessions that the server lists, from its answer to `session.list`:
/// the items of `sessions` that name a session, in order. An answer without
/// a list lists none.
pub fn sessions_listed(result: &Json) -> (r: Vec<SessionListItem>)
    ensures
        r@.len() == listed_sessions(result@).len(),
        forall|i: int|
            0 <= i < r@.len() ==> (#[trigger] r@[i]).session_id@ == listed_sessions(result@)[i],
{
    let mut out: Vec<SessionListItem> = Vec::new();
    let items = match result.get("sessions") {
        Some(v) => match v.as_array() {
            Some(items) => items,
            None => {
                return out;
            },
        },
        None => {
            return out;
        },
    };
    let ghost all = view_items(items@);
    let mut i: usize = 0;
    assert(all.take(0) =~= Seq::<JsonView>::empty());
    while i < items.len()
        invariant
            i <= items.len(),
            all == view_items(items@),
            out@.len() == sessions_among(all.take(i as int)).len(),
            forall|j: int|
                0 <= j < out@.len() ==> (#[trigger] out@[j]).session_id@ == sessions_among(
                    all.take(i as int),
                )[j],
        decreases items.len() - i,
    {
        proof {
            assert(all.take(i + 1).drop_last() =~= all.take(i as int));
            assert(all.take(i + 1).last() == all[i as int]);
        }
        match items[i].get_str("sessionId") {
            Some(id) => {
                out.push(SessionListItem { session_id: owned(id) });
            },
            None => {},
        }
        i += 1;
    }
    assert(all.take(items@.len() as int) =~= all);
    out
}

/// What the server is told of the tools in a list: the definition of each
/// tool that has a name, in order.
pub open spec fn tool_definitions<H>(tools: Seq<Tool<H>>) -> Seq<JsonView>
    decreases tools.len(),
{
    if tools.len() == 0 {
        Seq::empty()
    } else if tools.last().name@.len() > 0 {
        tool_definitions(tools.drop_last()).push(tools.last().definition())
    } else {
        tool_definitions(tools.drop_last())
    }
}

/// The `tools` member for a list of tools: the definitions, where there are
/// any.
pub open spec fn opt_tools_json<H>(tools: Seq<Tool<H>>) -> Option<JsonView> {
    if tool_definitions(tools).len() > 0 {
        Some(JsonView::Array(tool_definitions(tools)))
    } else {
        None
    }
}

/// The `tools` member for a list of tools.
pub fn opt_tools<H>(tools: &Vec<Tool<H>>) -> (r: Option<Json>)
    ensures
        opt_json_view(r) == opt_tools_json(tools@),
{
    let mut out: Vec<Json> = Vec::new();
    let mut i: usize = 0;
    assert(tools@.take(0) =~= Seq::<Tool<H>>::empty());
    while i < tools.len()
        invariant
            i <= tools.len(),
            view_items(out@) == tool_definitions(tools@.take(i as int)),
        decreases tools.len() - i,
    {
        proof {
            assert(tools@.take(i + 1).drop_last() =~= tools@.take(i as int));
            assert(tools@.take(i + 1).last() == tools@[i as int]);
        }
        if tools[i].name.as_str().unicode_len() > 0 {
            let ghost before = view_items(out@);
            let definition = tools[i].to_definition();
            out.push(definition);
            assert(view_items(out@) =~= before.push(tools@[i as int].definition()));
        }
        i += 1;
    }
    assert(tools@.take(tools@.len() as int) =~= tools@);
    if out.len() > 0 {
        Some(Json::Array(out))
    } else {
        None
    }
}

/// The parameters of `session.create` for a configuration: each member that
/// is set, and the tools that have a name.
pub open spec fn create_session_params<H>(config: SessionConfig<H>) -> JsonView {
    empty_object().with_opt("model"@, opt_string_json(config.model)).with_opt(
        "sessionId"@,
        opt_string_json(config.session_id),
    ).with_opt("tools"@, opt_tools_json(config.tools@)).with_opt(
        "systemMessage"@,
        opt_system_message_json(config.system_message),
    ).with_opt("availableTools"@, opt_strings_json(config.available_tools)).with_opt(
        "excludedTools"@,
        opt_strings_json(config.excluded_tools),
    ).with_opt("streaming"@, opt_bool_json(config.streaming)).with_opt(
        "provider"@,
        opt_provider_json(config.provider),
    ).with_opt("mcpServers"@, opt_fields_json(config.mcp_servers)).with_opt(
        "customAgents"@,
        opt_agents_json(config.custom_agents),
    ).with_opt("configDir"@, opt_string_json(config.config_dir)).with_opt(
        "skillDirectories"@,
        opt_strings_json(config.skill_directories),
    ).with_opt("disabledSkills"@, opt_strings_json(config.disabled_skills))
}

fn build_create_params<H>(config: &SessionConfig<H>) -> (r: Json)
    ensures
        r@ == create_session_params(*config),
{
    let mut params = Json::object();
    params.set_opt("model", Json::opt_string(&config.model));
    params.set_opt("sessionId", Json::opt_string(&config.session_id));
    params.set_opt("tools", opt_tools(&config.tools));
    let system_message = match &config.system_message {
        Some(m) => Some(m.to_json()),
        None => None,
    };
    params.set_opt("systemMessage", system_message);
    params.set_opt("availableTools", Json::opt_strings(&config.available_tools));
    params.set_opt("excludedTools", Json::opt_strings(&config.excluded_tools));
    params.set_opt("streaming", Json::opt_bool(&config.streaming));
    let provider = match &config.provider {
        Some(p) => Some(p.to_json()),
        None => None,
    };
    params.set_opt("provider", provider);
    params.set_opt("mcpServers", opt_fields(&config.mcp_servers));
    params.set_opt("customAgents", opt_agents(&config.custom_agents));
    params.set_opt("configDir", Json::opt_string(&config.config_dir));
    params.set_opt("skillDirectories", Json::opt_strings(&config.skill_directories));
    params.set_opt("disabledSkills", Json::opt_strings(&config.disabled_skills));
    params
}

/// The parameters of `session.resume` for a session and a configuration:
/// the session, each member that is set, and the tools that have a name.
pub open spec fn resume_session_params<H>(
    session_id: Seq<char>,
    config: ResumeSessionConfig<H>,
) -> JsonView {
    session_params(session_id).with_opt("tools"@, opt_tools_json(config.tools@)).with_opt(
        "provider"@,
        opt_provider_json(config.provider),
    ).with_opt("streaming"@, opt_bool_json(config.streaming)).with_opt(
        "mcpServers"@,
        opt_fields_json(config.mcp_servers),
    ).with_opt("customAgents"@, opt_agents_json(config.custom_agents)).with_opt(
        "skillDirectories"@,
        opt_strings_json(config.skill_directories),
    ).with_opt("disabledSkills"@, opt_strings_json(config.disabled_skills))
}

fn build_resume_params<H>(session_id: &str, config: &ResumeSessionConfig<H>) -> (r: Json)
    ensures
        r@ == resume_session_params(session_id@, *config),
{
    let mut params = Json::object();
    params.set("sessionId", Json::string(session_id));
    params.set_opt("tools", opt_tools(&config.tools));
    let provider = match &config.provider {
        Some(p) => Some(p.to_json()),
        None => None,
    };
    params.set_opt("provider", provider);
    params.set_opt("streaming", Json::opt_bool(&config.streaming));
    params.set_opt("mcpServers", opt_fields(&config.mcp_servers));
    params.set_opt("customAgents", opt_agents(&config.custom_agents));
    params.set_opt("skillDirectories", Json::opt_strings(&config.skill_directories));
    params.set_opt("disabledSkills", Json::opt_strings(&config.disabled_skills));
    params
}

fn build_session_params(session_id: &str) -> (r: Json)
    ensures
        r@ == session_params(session_id@),
{
    let mut params = Json::object();
    params.set("sessionId", Json::string(session_id));
    params
}

} // verus!
