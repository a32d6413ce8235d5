use copilot_sdk::client::{
    cli_path, connect_failure, destroy_failure, endpoint, get_sdk_protocol_version, kill_failure,
    parse_cli_url, permission_request, permission_response, ping_response, port_announcement,
    port_of_digits, session_event, session_id_of, sessions_listed, spawn_failure, tool_call,
    negotiate, saturate_i32, stop_errors, tool_call_response, verify_protocol_version,
    CopilotClient, PERMISSION_REQUEST_METHOD, SESSION_EVENT_METHOD, TOOL_CALL_METHOD,
    Readiness, StartPhase, CONNECT_TIMEOUT_SECONDS, SDK_PROTOCOL_VERSION,
};
use copilot_sdk::error::CopilotError;
use copilot_sdk::events::SessionEventType;
use copilot_sdk::json::Json;
use copilot_sdk::tool::{Tool, ToolResult};
use copilot_sdk::types::{
    ClientOptions, ConnectionState, CustomAgentConfig, PermissionRequestResult, PingResponse,
    ProviderConfig, ResumeSessionConfig, SessionConfig, SystemMessageConfig,
};

type Client = CopilotClient<&'static str, &'static str, u32>;

fn text(value: Json) -> String {
    String::from_utf8(value.to_bytes()).unwrap()
}

fn parsed(source: &str) -> Json {
    Json::parse(source.as_bytes()).unwrap()
}

fn invalid_config(result: Result<Client, CopilotError>) -> String {
    match result {
        Err(CopilotError::InvalidConfig(m)) => m,
        Err(other) => panic!("unexpected {:?}", other),
        Ok(_) => panic!("expected a configuration error"),
    }
}

#[test]
fn test_cli_path_returns_some_or_none() {
    // This test just ensures the function doesn't panic
    let _ = cli_path(None, None);
}

#[test]
fn cli_path_prefers_a_set_override() {
    assert_eq!(
        cli_path(Some("/opt/cli".to_string()), Some("/usr/lib/cli/index.js".to_string())),
        Some("/opt/cli".to_string())
    );
    assert_eq!(
        cli_path(Some(String::new()), Some("/usr/lib/cli/index.js".to_string())),
        Some("/usr/lib/cli/index.js".to_string())
    );
    assert_eq!(cli_path(None, Some("x".to_string())), Some("x".to_string()));
    assert_eq!(cli_path(Some(String::new()), None), None);
}

#[test]
fn constants() {
    assert_eq!(get_sdk_protocol_version(), SDK_PROTOCOL_VERSION);
    assert_eq!(CONNECT_TIMEOUT_SECONDS, 10);
}

#[test]
fn addresses_are_parsed() {
    assert_eq!(parse_cli_url("localhost:8080").unwrap(), ("localhost".to_string(), 8080));
    assert_eq!(parse_cli_url("http://example.com:3000").unwrap(), ("example.com".to_string(), 3000));
    assert_eq!(parse_cli_url("https://example.com:443").unwrap(), ("example.com".to_string(), 443));
    assert_eq!(parse_cli_url("8080").unwrap(), ("localhost".to_string(), 8080));
    assert_eq!(parse_cli_url("http://9000").unwrap(), ("localhost".to_string(), 9000));
    assert_eq!(parse_cli_url(":7000").unwrap(), ("localhost".to_string(), 7000));
    assert_eq!(parse_cli_url("127.0.0.1:1").unwrap(), ("127.0.0.1".to_string(), 1));
    assert_eq!(parse_cli_url("h\u{f6}st:80").unwrap(), ("h\u{f6}st".to_string(), 80));
    assert_eq!(parse_cli_url("host:+80").unwrap(), ("host".to_string(), 80));
    assert_eq!(parse_cli_url("0").unwrap(), ("localhost".to_string(), 0));
}

#[test]
fn addresses_that_name_no_endpoint_are_refused() {
    let format = |url: &str| {
        format!(
            "Invalid cli_url format: {}. Expected 'host:port', 'http://host:port', or 'port'",
            url
        )
    };
    let port = |url: &str| format!("Invalid port in cli_url: {}", url);
    let cases: Vec<(&str, String)> = vec![
        ("localhost", format("localhost")),
        ("", format("")),
        ("http://", format("http://")),
        ("ftp://host:80", port("ftp://host:80")),
        ("host:", port("host:")),
        ("host:http", port("host:http")),
        ("host:80:90", port("host:80:90")),
        ("host:65536", port("host:65536")),
        ("65536", port("65536")),
        ("99999999999999999999", port("99999999999999999999")),
        ("\u{663}\u{664}", port("\u{663}\u{664}")),
        ("http://http://host:80", port("http://http://host:80")),
    ];
    for (url, message) in cases {
        match parse_cli_url(url) {
            Err(CopilotError::InvalidConfig(m)) => assert_eq!(m, message, "{:?}", url),
            other => panic!("unexpected {:?} for {:?}", other, url),
        }
    }
}

#[test]
fn an_endpoint_is_a_port_or_a_host_and_a_port() {
    assert_eq!(endpoint("u", "123", true).unwrap(), ("localhost".to_string(), 123));
    assert!(matches!(endpoint("u", "abc", true), Err(CopilotError::InvalidConfig(_))));
    assert_eq!(endpoint("u", "a:1", false).unwrap(), ("a".to_string(), 1));
    assert_eq!(endpoint("u", "123", false).err().map(|e| e.to_string()).unwrap(),
        "Invalid configuration: Invalid cli_url format: u. Expected 'host:port', 'http://host:port', or 'port'");
}

#[test]
fn the_announced_port_is_found_in_a_line() {
    assert_eq!(port_announcement("CLI server listening on port 43123\n"), Some(43123));
    assert_eq!(port_announcement("listening on port 8080"), Some(8080));
    assert_eq!(port_announcement("listening on port 8080 and listening on port 9090"), Some(8080));
    assert_eq!(port_announcement("listening on port 80x"), Some(80));
    assert_eq!(port_announcement("listening on port 65536"), None);
    assert_eq!(port_announcement("listening on port "), None);
    assert_eq!(port_announcement("Listening on port 80"), None);
    assert_eq!(port_announcement("starting up"), None);
    assert_eq!(port_announcement(""), None);
    assert_eq!(port_of_digits("0080"), Some(80));
    assert_eq!(port_of_digits("70000"), None);
}

#[test]
fn a_client_without_options_takes_the_defaults() {
    let client = Client::new(None, None).unwrap();
    assert_eq!(client.get_state(), ConnectionState::Disconnected);
    assert_eq!(client.options().cli_path.as_deref(), Some("copilot"));
    assert_eq!(client.options().use_stdio, Some(true));
    assert_eq!(client.options().log_level.as_deref(), Some("info"));
    assert_eq!(client.options().port, None);
    assert!(client.auto_start());
    assert!(client.auto_restart());
    assert!(!client.is_external_server());
    assert_eq!(client.session_count(), 0);
    assert!(matches!(client.get_rpc_client(), Err(CopilotError::NotConnected)));
}

#[test]
fn options_override_the_defaults() {
    let client = Client::new(
        Some(
            ClientOptions::new()
                .cli_path("/bin/cli")
                .cwd("/w")
                .log_level("debug")
                .auto_start(false)
                .auto_restart(false)
                .env(vec![("A".to_string(), "B".to_string())]),
        ),
        None,
    )
    .unwrap();
    assert_eq!(client.options().cli_path.as_deref(), Some("/bin/cli"));
    assert_eq!(client.options().cwd.as_deref(), Some("/w"));
    assert_eq!(client.options().log_level.as_deref(), Some("debug"));
    assert_eq!(client.options().use_stdio, Some(true));
    assert_eq!(client.options().env, Some(vec![("A".to_string(), "B".to_string())]));
    assert!(!client.auto_start());
    assert!(!client.auto_restart());
    let tcp = Client::new(Some(ClientOptions::new().port(0)), None).unwrap();
    assert_eq!(tcp.options().use_stdio, Some(false));
    assert_eq!(tcp.options().port, Some(0));
    let tcp = Client::new(Some(ClientOptions::new().use_stdio(false)), None).unwrap();
    assert_eq!(tcp.options().use_stdio, Some(false));
    let overridden = Client::new(Some(ClientOptions::new().cli_path("/bin/cli")), Some("/env/cli".to_string())).unwrap();
    assert_eq!(overridden.options().cli_path.as_deref(), Some("/env/cli"));
    let overridden = Client::new(None, Some("/env/cli".to_string())).unwrap();
    assert_eq!(overridden.options().cli_path.as_deref(), Some("/env/cli"));
}

#[test]
fn an_address_makes_the_server_external() {
    let client = Client::new(Some(ClientOptions::new().cli_url("http://10.0.0.1:4321")), None).unwrap();
    assert!(client.is_external_server());
    assert_eq!(client.options().use_stdio, Some(false));
    assert_eq!(client.options().cli_url.as_deref(), Some("http://10.0.0.1:4321"));
    assert!(client.connect_to_server());
    assert_eq!(client.connect_via_tcp().unwrap(), "10.0.0.1:4321");
    let allowed = Client::new(Some(ClientOptions::new().cli_url("1234").use_stdio(false)), None).unwrap();
    assert_eq!(allowed.connect_via_tcp().unwrap(), "localhost:1234");
}

#[test]
fn an_address_excludes_a_server_of_ones_own() {
    let message = "cli_url is mutually exclusive with use_stdio and cli_path";
    assert_eq!(
        invalid_config(Client::new(Some(ClientOptions::new().cli_url("localhost:8080").use_stdio(true)), None)),
        message
    );
    assert_eq!(
        invalid_config(Client::new(Some(ClientOptions::new().cli_url("localhost:8080").cli_path("/bin/cli")), None)),
        message
    );
    assert_eq!(
        invalid_config(Client::new(Some(ClientOptions::new().cli_url("nonsense")), None)),
        "Invalid cli_url format: nonsense. Expected 'host:port', 'http://host:port', or 'port'"
    );
    assert_eq!(
        invalid_config(Client::new(Some(ClientOptions::new().cli_url("host:port")), None)),
        "Invalid port in cli_url: host:port"
    );
}

#[test]
fn the_server_is_spawned_with_its_flags() {
    let client = Client::new(None, None).unwrap();
    let plan = client.start_cli_server();
    assert_eq!(plan.program, "copilot");
    assert_eq!(plan.args, vec!["--server", "--log-level", "info", "--stdio"]);
    assert!(plan.use_stdio);
    assert_eq!(plan.cwd, None);
    assert_eq!(plan.env, None);
    let client = Client::new(
        Some(ClientOptions::new().cli_path("/x/index.js").port(9000).log_level("error").cwd("/w").env(vec![("A".to_string(), "B".to_string())])),
        None,
    )
    .unwrap();
    let plan = client.start_cli_server();
    assert_eq!(plan.program, "node");
    assert_eq!(plan.args, vec!["/x/index.js", "--server", "--log-level", "error", "--port", "9000"]);
    assert!(!plan.use_stdio);
    assert_eq!(plan.cwd, Some("/w"));
    assert_eq!(plan.env, Some(&vec![("A".to_string(), "B".to_string())]));
    let client = Client::new(Some(ClientOptions::new().use_stdio(false)), None).unwrap();
    assert_eq!(client.start_cli_server().args, vec!["--server", "--log-level", "info"]);
}

#[test]
fn start_goes_through_connecting() {
    let mut client = Client::new(None, None).unwrap();
    assert_eq!(client.start().unwrap(), StartPhase::Spawn);
    assert_eq!(client.get_state(), ConnectionState::Connecting);
    assert!(!client.connect_to_server());
    client.set_process("child");
    client.set_rpc_client("rpc");
    assert_eq!(client.get_rpc_client().unwrap(), &"rpc");
    assert!(client.finish_start(Ok(())).is_ok());
    assert_eq!(client.get_state(), ConnectionState::Connected);
    match client.start() {
        Err(CopilotError::Connection(m)) => assert_eq!(m, "client is already connected"),
        other => panic!("unexpected {:?}", other),
    }
    assert_eq!(client.get_state(), ConnectionState::Connected);
    let mut external = Client::new(Some(ClientOptions::new().cli_url("8080")), None).unwrap();
    assert_eq!(external.start().unwrap(), StartPhase::Connect);
}

#[test]
fn the_start_procedure_goes_step_by_step() {
    let stdio = Client::new(None, None).unwrap();
    assert_eq!(stdio.next_phase(StartPhase::Spawn), StartPhase::Verify);
    assert_eq!(stdio.next_phase(StartPhase::Verify), StartPhase::Done);
    assert_eq!(stdio.next_phase(StartPhase::Done), StartPhase::Done);
    let tcp = Client::new(Some(ClientOptions::new().port(0)), None).unwrap();
    assert_eq!(tcp.next_phase(StartPhase::Spawn), StartPhase::Connect);
    assert_eq!(tcp.next_phase(StartPhase::Connect), StartPhase::Verify);
    let mut external = Client::new(Some(ClientOptions::new().cli_url("8080")), None).unwrap();
    assert_eq!(external.start().unwrap(), StartPhase::Connect);
    assert_eq!(external.next_phase(StartPhase::Connect), StartPhase::Verify);
}

#[test]
fn a_stop_collects_its_errors() {
    assert!(stop_errors(&vec![], &Ok(())).is_empty());
    assert!(stop_errors(&vec![("a".to_string(), Ok(()))], &Ok(())).is_empty());
    let errors = stop_errors(
        &vec![
            ("a".to_string(), Err(CopilotError::ClientStopped)),
            ("b".to_string(), Ok(())),
            ("c".to_string(), Err(CopilotError::Timeout)),
        ],
        &Err("no such process".to_string()),
    );
    let messages: Vec<String> = errors.iter().map(|e| e.to_string()).collect();
    assert_eq!(
        messages,
        vec![
            "Session error: failed to destroy session a: Client stopped",
            "Session error: failed to destroy session c: Timeout waiting for response",
            "Process error: failed to kill CLI process: no such process",
        ]
    );
}

#[test]
fn a_spawned_tcp_server_needs_its_port() {
    let mut client = Client::new(Some(ClientOptions::new().port(0)), None).unwrap();
    assert!(client.connect_to_server());
    match client.connect_via_tcp() {
        Err(CopilotError::Connection(m)) => assert_eq!(m, "server port not available"),
        other => panic!("unexpected {:?}", other),
    }
    client.set_port(port_announcement("listening on port 5555").unwrap());
    assert_eq!(client.connect_via_tcp().unwrap(), "localhost:5555");
}

#[test]
fn stop_hands_back_what_the_client_had() {
    let mut client = Client::new(None, None).unwrap();
    client.start().unwrap();
    client.set_process("child");
    client.set_rpc_client("rpc");
    client.set_port(4000);
    client.finish_start(Ok(())).ok().unwrap();
    assert_eq!(client.add_session("a".to_string(), 1), None);
    assert_eq!(client.add_session("b".to_string(), 2), None);
    assert_eq!(client.add_session("a".to_string(), 3), Some(1));
    assert_eq!(client.session_count(), 2);
    assert_eq!(client.session("a"), Some(&3));
    let teardown = client.stop();
    assert_eq!(teardown.sessions, vec![("b".to_string(), 2), ("a".to_string(), 3)]);
    assert_eq!(teardown.process, Some("child"));
    assert_eq!(teardown.rpc_client, Some("rpc"));
    assert_eq!(client.get_state(), ConnectionState::Disconnected);
    assert_eq!(client.session_count(), 0);
    assert!(client.get_rpc_client().is_err());
    assert!(matches!(client.connect_via_tcp(), Err(CopilotError::Connection(_))));
    let again = client.stop();
    assert!(again.sessions.is_empty() && again.process.is_none() && again.rpc_client.is_none());
}

#[test]
fn force_stop_hands_back_no_session() {
    let mut client = Client::new(None, None).unwrap();
    client.start().unwrap();
    client.set_process("child");
    client.set_rpc_client("rpc");
    client.finish_start(Ok(())).ok().unwrap();
    client.add_session("a".to_string(), 1);
    let teardown = client.force_stop();
    assert!(teardown.sessions.is_empty());
    assert_eq!(teardown.process, Some("child"));
    assert_eq!(teardown.rpc_client, Some("rpc"));
    assert_eq!(client.get_state(), ConnectionState::Disconnected);
    assert_eq!(client.session_count(), 0);
}

#[test]
fn an_external_server_is_not_killed_and_keeps_its_port() {
    let mut client = Client::new(Some(ClientOptions::new().cli_url("host:4321")), None).unwrap();
    client.start().unwrap();
    client.set_rpc_client("rpc");
    client.finish_start(Ok(())).ok().unwrap();
    let teardown = client.stop();
    assert_eq!(teardown.process, None);
    assert_eq!(teardown.rpc_client, Some("rpc"));
    assert_eq!(client.connect_via_tcp().unwrap(), "host:4321");
}

#[test]
fn session_calls_start_the_client_where_it_may() {
    let mut client = Client::new(None, None).unwrap();
    assert_eq!(client.ensure_connected().unwrap(), Readiness::StartFirst);
    client.start().unwrap();
    client.set_rpc_client("rpc");
    client.finish_start(Ok(())).ok().unwrap();
    assert_eq!(client.ensure_connected().unwrap(), Readiness::Ready);
    let manual = Client::new(Some(ClientOptions::new().auto_start(false)), None).unwrap();
    assert!(matches!(manual.ensure_connected(), Err(CopilotError::NotConnected)));
}

#[test]
fn requests_need_a_connection() {
    let mut client = Client::new(None, None).unwrap();
    let config: SessionConfig<u8> = SessionConfig::new();
    let resume: ResumeSessionConfig<u8> = ResumeSessionConfig::default();
    assert!(matches!(client.ping(None), Err(CopilotError::NotConnected)));
    assert!(matches!(client.create_session(&config), Err(CopilotError::NotConnected)));
    assert!(matches!(client.resume_session("s", &resume), Err(CopilotError::NotConnected)));
    assert!(matches!(client.delete_session("s"), Err(CopilotError::NotConnected)));
    assert!(matches!(client.list_sessions(), Err(CopilotError::NotConnected)));
    client.set_rpc_client("rpc");
    assert_eq!(text(client.ping(None).unwrap().params), "{}");
    assert_eq!(text(client.ping(Some("hi")).unwrap().params), "{\"message\":\"hi\"}");
    assert_eq!(text(client.create_session(&config).unwrap().params), "{}");
    assert_eq!(text(client.resume_session("s", &resume).unwrap().params), "{\"sessionId\":\"s\"}");
    assert_eq!(text(client.delete_session("s").unwrap().params), "{\"sessionId\":\"s\"}");
    assert_eq!(text(client.list_sessions().unwrap().params), "{}");
}

#[test]
fn a_session_is_created_with_what_is_set() {
    let mut client = Client::new(None, None).unwrap();
    client.set_rpc_client("rpc");
    let mut config: SessionConfig<u8> = SessionConfig::new()
        .model("gpt-5")
        .tool(Tool::new("double", "Doubles").parameters(Json::object()).handler(1))
        .tool(Tool::new("", "Nameless").handler(2))
        .tool(Tool::new("plain", "No schema"))
        .streaming(true)
        .system_message(SystemMessageConfig::append("Be brief"))
        .provider(ProviderConfig {
            provider_type: Some("openai".to_string()),
            wire_api: Some("responses".to_string()),
            base_url: "https://api".to_string(),
            api_key: None,
            bearer_token: Some("b".to_string()),
            azure: None,
        });
    config.session_id = Some("custom".to_string());
    config.config_dir = Some("/cfg".to_string());
    config.available_tools = Some(vec!["double".to_string()]);
    config.excluded_tools = Some(vec![]);
    config.mcp_servers = Some(vec![("m".to_string(), parsed("{\"type\":\"http\"}"))]);
    config.custom_agents = Some(vec![CustomAgentConfig {
        name: "a".to_string(),
        display_name: None,
        description: None,
        tools: None,
        prompt: "p".to_string(),
        mcp_servers: None,
        infer: None,
    }]);
    config.skill_directories = Some(vec!["/skills".to_string()]);
    config.disabled_skills = Some(vec!["s1".to_string(), "s2".to_string()]);
    assert_eq!(
        text(client.create_session(&config).unwrap().params),
        "{\"availableTools\":[\"double\"],\"configDir\":\"/cfg\",\"customAgents\":[{\"name\":\"a\",\"prompt\":\"p\"}],\"disabledSkills\":[\"s1\",\"s2\"],\"excludedTools\":[],\"mcpServers\":{\"m\":{\"type\":\"http\"}},\"model\":\"gpt-5\",\"provider\":{\"baseUrl\":\"https://api\",\"bearerToken\":\"b\",\"type\":\"openai\",\"wireApi\":\"responses\"},\"sessionId\":\"custom\",\"skillDirectories\":[\"/skills\"],\"streaming\":true,\"systemMessage\":{\"content\":\"Be brief\",\"mode\":\"append\"},\"tools\":[{\"description\":\"Doubles\",\"name\":\"double\",\"parameters\":{}},{\"description\":\"No schema\",\"name\":\"plain\"}]}"
    );
    let nameless: SessionConfig<u8> = SessionConfig::new().tool(Tool::new("", "Nameless"));
    assert_eq!(text(client.create_session(&nameless).unwrap().params), "{}");
    let mut resume: ResumeSessionConfig<u8> = ResumeSessionConfig::default();
    resume.tools.push(Tool::new("t", "T"));
    resume.streaming = Some(false);
    assert_eq!(
        text(client.resume_session("s-1", &resume).unwrap().params),
        "{\"sessionId\":\"s-1\",\"streaming\":false,\"tools\":[{\"description\":\"T\",\"name\":\"t\"}]}"
    );
}

#[test]
fn the_session_id_is_read_from_the_answer() {
    assert_eq!(session_id_of(&parsed("{\"sessionId\":\"s-1\",\"extra\":1}")).unwrap(), "s-1");
    for bad in ["{}", "{\"sessionId\":1}", "[]"] {
        match session_id_of(&parsed(bad)) {
            Err(CopilotError::InvalidResponse(m)) => assert_eq!(m, "missing sessionId"),
            other => panic!("unexpected {:?}", other),
        }
    }
}

#[test]
fn sessions_are_kept_and_forgotten() {
    let mut client = Client::new(None, None).unwrap();
    client.add_session("a".to_string(), 1);
    assert_eq!(client.forget_session("b"), None);
    assert_eq!(client.forget_session("a"), Some(1));
    assert_eq!(client.session("a"), None);
    assert_eq!(client.session_count(), 0);
}

#[test]
fn listed_sessions_are_read() {
    let listed = sessions_listed(&parsed("{\"sessions\":[{\"sessionId\":\"a\"},{\"other\":1},{\"sessionId\":\"b\",\"x\":2},7]}"));
    let ids: Vec<&str> = listed.iter().map(|s| s.session_id.as_str()).collect();
    assert_eq!(ids, vec!["a", "b"]);
    assert!(sessions_listed(&parsed("{}")).is_empty());
    assert!(sessions_listed(&parsed("{\"sessions\":null}")).is_empty());
}

#[test]
fn ping_round_trip() {
    let mut client = Client::new(None, None).unwrap();
    client.start().unwrap();
    client.set_rpc_client("rpc");
    assert_eq!(text(client.ping(Some("hi")).unwrap().params), "{\"message\":\"hi\"}");
    let answer = parsed(&format!(
        "{{\"message\":\"pong: hi\",\"timestamp\":1700000000,\"protocolVersion\":{}}}",
        SDK_PROTOCOL_VERSION
    ));
    let pong = ping_response(&answer);
    assert_eq!(pong.message, "pong: hi");
    assert_eq!(pong.timestamp, 1700000000);
    assert_eq!(pong.protocol_version, Some(SDK_PROTOCOL_VERSION));
    assert!(client.finish_start(verify_protocol_version(&pong)).is_ok());
    assert_eq!(client.get_state(), ConnectionState::Connected);
}

#[test]
fn a_version_mismatch_fails_the_start() {
    let mut client = Client::new(None, None).unwrap();
    client.start().unwrap();
    client.set_rpc_client("rpc");
    let answer = parsed(&format!(
        "{{\"message\":\"\",\"timestamp\":0,\"protocolVersion\":{}}}",
        SDK_PROTOCOL_VERSION + 1
    ));
    let pong = ping_response(&answer);
    match client.finish_start(verify_protocol_version(&pong)) {
        Err(failure) => {
            match failure.error {
                CopilotError::ProtocolVersionMismatch { expected, actual } => {
                    assert_eq!(expected, SDK_PROTOCOL_VERSION);
                    assert_eq!(actual, SDK_PROTOCOL_VERSION + 1);
                }
                other => panic!("unexpected {:?}", other),
            }
            assert_eq!(failure.rpc_client, Some("rpc"));
        }
        Ok(()) => panic!("expected the start to fail"),
    }
    assert_eq!(client.get_state(), ConnectionState::Error);
    assert!(matches!(client.get_rpc_client(), Err(CopilotError::NotConnected)));
    assert!(matches!(client.ping(None), Err(CopilotError::NotConnected)));
    assert_eq!(client.session_count(), 0);
    let message = CopilotError::ProtocolVersionMismatch {
        expected: SDK_PROTOCOL_VERSION,
        actual: SDK_PROTOCOL_VERSION + 1,
    }
    .to_string();
    assert!(message.contains(&format!("expects version {}", SDK_PROTOCOL_VERSION)));
    assert!(message.contains(&format!("reports version {}", SDK_PROTOCOL_VERSION + 1)));
}

#[test]
fn a_server_without_a_version_fails_the_start() {
    let pong = ping_response(&parsed("{\"message\":\"pong\"}"));
    assert_eq!(pong.timestamp, 0);
    assert_eq!(pong.protocol_version, None);
    assert!(matches!(
        verify_protocol_version(&pong),
        Err(CopilotError::ProtocolVersionNotReported { expected: SDK_PROTOCOL_VERSION })
    ));
    let odd = ping_response(&parsed("{\"message\":5,\"timestamp\":\"x\",\"protocolVersion\":2.5}"));
    assert_eq!(odd.message, "");
    assert_eq!(odd.timestamp, 0);
    assert_eq!(odd.protocol_version, None);
    assert!(verify_protocol_version(&PingResponse {
        message: String::new(),
        timestamp: 0,
        protocol_version: Some(SDK_PROTOCOL_VERSION)
    })
    .is_ok());
}

#[test]
fn a_version_beyond_the_range_is_no_match() {
    for v in [0i64, 1, -1, 2147483647, -2147483648] {
        assert_eq!(saturate_i32(v), v as i32, "{}", v);
    }
    assert_eq!(saturate_i32(2147483648), i32::MAX);
    assert_eq!(saturate_i32(4294967298), i32::MAX);
    assert_eq!(saturate_i32(i64::MAX), i32::MAX);
    assert_eq!(saturate_i32(-2147483649), i32::MIN);
    assert_eq!(saturate_i32(i64::MIN), i32::MIN);
    let pong = ping_response(&parsed("{\"protocolVersion\":4294967298}"));
    assert_eq!(pong.protocol_version, Some(i32::MAX));
    match negotiate(&parsed("{\"protocolVersion\":4294967298}")) {
        Err(CopilotError::ProtocolVersionMismatch { expected, actual }) => {
            assert_eq!(expected, SDK_PROTOCOL_VERSION);
            assert_eq!(actual, i32::MAX);
        }
        other => panic!("unexpected {:?}", other),
    }
}

#[test]
fn the_version_is_negotiated_on_the_answer_to_ping() {
    let good = parsed(&format!("{{\"message\":\"m\",\"protocolVersion\":{}}}", SDK_PROTOCOL_VERSION));
    let pong = negotiate(&good).unwrap();
    assert_eq!(pong.message, "m");
    assert_eq!(pong.protocol_version, Some(SDK_PROTOCOL_VERSION));
    assert!(matches!(
        negotiate(&parsed("{\"message\":\"m\"}")),
        Err(CopilotError::ProtocolVersionNotReported { expected: SDK_PROTOCOL_VERSION })
    ));
    assert!(matches!(
        negotiate(&parsed("{\"protocolVersion\":\"2\"}")),
        Err(CopilotError::ProtocolVersionNotReported { .. })
    ));
    assert!(matches!(
        negotiate(&parsed(&format!("{{\"protocolVersion\":{}}}", SDK_PROTOCOL_VERSION - 1))),
        Err(CopilotError::ProtocolVersionMismatch { .. })
    ));
}

#[test]
fn every_request_names_its_method() {
    let mut client = Client::new(None, None).unwrap();
    client.set_rpc_client("rpc");
    let config: SessionConfig<u8> = SessionConfig::new();
    let resume: ResumeSessionConfig<u8> = ResumeSessionConfig::default();
    assert_eq!(client.ping(Some("hi")).unwrap().method, "ping");
    assert_eq!(client.create_session(&config).unwrap().method, "session.create");
    assert_eq!(client.resume_session("s", &resume).unwrap().method, "session.resume");
    assert_eq!(client.delete_session("s").unwrap().method, "session.delete");
    assert_eq!(client.list_sessions().unwrap().method, "session.list");
    assert_eq!(SESSION_EVENT_METHOD, "session.event");
    assert_eq!(TOOL_CALL_METHOD, "tool.call");
    assert_eq!(PERMISSION_REQUEST_METHOD, "permission.request");
}

#[test]
fn events_go_to_the_session_that_they_name() {
    let mut client = Client::new(None, None).unwrap();
    client.add_session("S".to_string(), 7);
    let params = parsed("{\"sessionId\":\"S\",\"event\":{\"id\":\"e\",\"timestamp\":\"2025-01-02T03:04:05Z\",\"type\":\"session.idle\",\"data\":{}}}");
    match client.route_event("session.event", &params) {
        Some((session, event)) => {
            assert_eq!(*session, 7);
            assert_eq!(event.event_type, Some(SessionEventType::SessionIdle));
        }
        None => panic!("expected a route"),
    }
    let notice = session_event("session.event", &params).unwrap();
    assert_eq!(notice.session_id, "S");
    assert_eq!(notice.event.id, "e");
}

#[test]
fn an_event_for_an_unknown_session_is_dropped() {
    let mut client = Client::new(None, None).unwrap();
    client.add_session("S".to_string(), 7);
    let event = "{\"id\":\"e\",\"timestamp\":\"2025-01-02T03:04:05Z\",\"type\":\"session.idle\",\"data\":{}}";
    let unknown = parsed(&format!("{{\"sessionId\":\"T\",\"event\":{}}}", event));
    assert!(client.route_event("session.event", &unknown).is_none());
    assert!(session_event("session.event", &unknown).is_some());
    let known = parsed(&format!("{{\"sessionId\":\"S\",\"event\":{}}}", event));
    assert!(client.route_event("session.other", &known).is_none());
    assert!(client.route_event("session.event", &parsed("{\"sessionId\":\"S\"}")).is_none());
    assert!(client.route_event("session.event", &parsed(&format!("{{\"event\":{}}}", event))).is_none());
    assert!(client.route_event("session.event", &parsed("{\"sessionId\":\"S\",\"event\":{\"type\":\"nope\"}}")).is_none());
    assert!(client.route_event("session.event", &Json::Null).is_none());
}

#[test]
fn tool_calls_are_read_and_answered() {
    let call = tool_call(&parsed("{\"sessionId\":\"S\",\"toolCallId\":\"t1\",\"toolName\":\"double\",\"arguments\":{\"x\":21}}")).unwrap();
    assert_eq!(call.session_id, "S");
    assert_eq!(call.tool_call_id, "t1");
    assert_eq!(call.tool_name, "double");
    assert_eq!(call.arguments, parsed("{\"x\":21}"));
    let bare = tool_call(&parsed("{\"sessionId\":\"S\",\"toolCallId\":\"t1\",\"toolName\":\"double\"}")).unwrap();
    assert_eq!(bare.arguments, Json::Null);
    for bad in [
        "{\"toolCallId\":\"t1\",\"toolName\":\"double\"}",
        "{\"sessionId\":\"\",\"toolCallId\":\"t1\",\"toolName\":\"double\"}",
        "{\"sessionId\":\"S\",\"toolName\":\"double\"}",
        "{\"sessionId\":\"S\",\"toolCallId\":\"t1\"}",
        "{\"sessionId\":\"S\",\"toolCallId\":\"t1\",\"toolName\":7}",
        "null",
    ] {
        match tool_call(&parsed(bad)) {
            Err(CopilotError::InvalidResponse(m)) => assert_eq!(m, "invalid tool call payload"),
            other => panic!("unexpected {:?}", other),
        }
    }
    assert_eq!(
        text(tool_call_response(&ToolResult::success("42"))),
        "{\"result\":{\"resultType\":\"success\",\"textResultForLlm\":\"42\"}}"
    );
}

#[test]
fn permission_requests_are_read_and_answered() {
    let call = permission_request(&parsed("{\"sessionId\":\"S\",\"permissionRequest\":{\"kind\":\"shell\"}}")).unwrap();
    assert_eq!(call.session_id, "S");
    assert_eq!(call.request, parsed("{\"kind\":\"shell\"}"));
    let bare = permission_request(&parsed("{\"sessionId\":\"S\"}")).unwrap();
    assert_eq!(bare.request, Json::Null);
    match permission_request(&parsed("{}")) {
        Err(denied) => assert_eq!(denied.kind, "denied-no-approval-rule-and-could-not-request-from-user"),
        Ok(_) => panic!("expected a denial"),
    }
    assert_eq!(
        text(permission_response(&PermissionRequestResult::denied())),
        "{\"result\":{\"kind\":\"denied-no-approval-rule-and-could-not-request-from-user\"}}"
    );
}

#[test]
fn calls_for_an_unknown_session_are_answered_without_it() {
    let mut client = Client::new(None, None).unwrap();
    client.add_session("S".to_string(), 7);
    let call = tool_call(&parsed("{\"sessionId\":\"S\",\"toolCallId\":\"t\",\"toolName\":\"n\"}")).unwrap();
    assert_eq!(client.tool_session(&call).ok(), Some(&7));
    let call = tool_call(&parsed("{\"sessionId\":\"T\",\"toolCallId\":\"t\",\"toolName\":\"n\"}")).unwrap();
    match client.tool_session(&call) {
        Err(result) => assert_eq!(result.error.as_deref(), Some("tool 'n' not supported")),
        Ok(_) => panic!("expected no session"),
    }
    let known = permission_request(&parsed("{\"sessionId\":\"S\"}")).unwrap();
    assert_eq!(client.permission_session(&known).ok(), Some(&7));
    let unknown = permission_request(&parsed("{\"sessionId\":\"T\"}")).unwrap();
    match client.permission_session(&unknown) {
        Err(result) => assert_eq!(result.kind, "denied-no-approval-rule-and-could-not-request-from-user"),
        Ok(_) => panic!("expected no session"),
    }
}

#[test]
fn a_lost_connection_calls_for_a_new_one_where_the_client_restarts() {
    let mut client = Client::new(None, None).unwrap();
    assert!(!client.handle_disconnect());
    client.start().unwrap();
    assert!(!client.handle_disconnect());
    client.set_process("child");
    client.set_rpc_client("rpc");
    client.finish_start(Ok(())).ok().unwrap();
    client.add_session("S".to_string(), 1);
    assert!(client.handle_disconnect());
    let teardown = client.reconnect();
    assert_eq!(teardown.sessions, vec![("S".to_string(), 1)]);
    assert_eq!(teardown.rpc_client, Some("rpc"));
    assert_eq!(client.get_state(), ConnectionState::Disconnected);
    assert!(!client.handle_disconnect());
    assert_eq!(client.start().unwrap(), StartPhase::Spawn);
    assert_eq!(client.get_state(), ConnectionState::Connecting);
    client.set_process("child 2");
    client.set_rpc_client("rpc 2");
    let pong = PingResponse { message: String::new(), timestamp: 0, protocol_version: Some(SDK_PROTOCOL_VERSION) };
    client.finish_start(verify_protocol_version(&pong)).ok().unwrap();
    assert_eq!(client.get_state(), ConnectionState::Connected);
    let manual = {
        let mut c = Client::new(Some(ClientOptions::new().auto_restart(false)), None).unwrap();
        c.start().unwrap();
        c.finish_start(Ok(())).ok().unwrap();
        c
    };
    assert!(!manual.handle_disconnect());
}

#[test]
fn a_failed_restart_ends_in_error() {
    let mut client = Client::new(None, None).unwrap();
    client.start().unwrap();
    client.finish_start(Ok(())).ok().unwrap();
    client.reconnect();
    client.start().unwrap();
    let failure = client.finish_start(Err(spawn_failure("No such file")));
    assert_eq!(
        failure.unwrap_err().error.to_string(),
        "Process error: failed to start CLI server: No such file"
    );
    assert_eq!(client.get_state(), ConnectionState::Error);
    assert!(!client.handle_disconnect());
}

#[test]
fn failures_have_their_messages() {
    assert_eq!(
        destroy_failure("s-1", &CopilotError::ClientStopped).to_string(),
        "Session error: failed to destroy session s-1: Client stopped"
    );
    assert_eq!(kill_failure("gone").to_string(), "Process error: failed to kill CLI process: gone");
    assert_eq!(
        connect_failure("localhost:1", "refused").to_string(),
        "Connection error: failed to connect to CLI server at localhost:1: refused"
    );
}
