use copilot_sdk::error::{CopilotError, JsonRpcError};
use copilot_sdk::json::Json;

#[test]
fn the_standard_codes() {
    assert_eq!(JsonRpcError::PARSE_ERROR, -32700);
    assert_eq!(JsonRpcError::INVALID_REQUEST, -32600);
    assert_eq!(JsonRpcError::METHOD_NOT_FOUND, -32601);
    assert_eq!(JsonRpcError::INVALID_PARAMS, -32602);
    assert_eq!(JsonRpcError::INTERNAL_ERROR, -32603);
}

#[test]
fn a_json_rpc_error_is_built_and_shown() {
    let error = JsonRpcError::new(JsonRpcError::METHOD_NOT_FOUND, "Method not found");
    assert_eq!(error.code, -32601);
    assert_eq!(error.message, "Method not found");
    assert_eq!(error.data, None);
    assert_eq!(error.to_string(), "JSON-RPC Error -32601: Method not found");
    let mut data = Json::object();
    data.set("method", Json::string("unknown.method"));
    let with_data = error.with_data(data.clone());
    assert_eq!(with_data.code, -32601);
    assert_eq!(with_data.data, Some(data.clone()));
    match CopilotError::from(with_data) {
        CopilotError::JsonRpc { code, message, data: d } => {
            assert_eq!(code, -32601);
            assert_eq!(message, "Method not found");
            assert_eq!(d, Some(data));
        }
        other => panic!("unexpected {:?}", other),
    }
}

#[test]
fn every_error_has_its_message() {
    let cases: Vec<(CopilotError, &str)> = vec![
        (
            CopilotError::JsonRpc { code: 42, message: "m".to_string(), data: None },
            "JSON-RPC error 42: m",
        ),
        (CopilotError::Connection("c".to_string()), "Connection error: c"),
        (CopilotError::Process("p".to_string()), "Process error: p"),
        (CopilotError::Session("s".to_string()), "Session error: s"),
        (CopilotError::NotConnected, "Client not connected. Call start() first"),
        (
            CopilotError::ProtocolVersionMismatch { expected: 2, actual: 3 },
            "SDK protocol version mismatch: SDK expects version 2, but server reports version 3. Please update your SDK or server to ensure compatibility",
        ),
        (
            CopilotError::ProtocolVersionNotReported { expected: 2 },
            "SDK protocol version mismatch: SDK expects version 2, but server does not report a protocol version. Please update your server to ensure compatibility",
        ),
        (CopilotError::Timeout, "Timeout waiting for response"),
        (CopilotError::InvalidResponse("r".to_string()), "Invalid response: r"),
        (CopilotError::ToolExecution("t".to_string()), "Tool execution error: t"),
        (CopilotError::Serialization("j".to_string()), "Serialization error: j"),
        (CopilotError::Io("i".to_string()), "IO error: i"),
        (CopilotError::ClientStopped, "Client stopped"),
        (CopilotError::InvalidConfig("x".to_string()), "Invalid configuration: x"),
    ];
    for (error, message) in cases {
        assert_eq!(error.to_string(), message);
    }
    assert_eq!(
        CopilotError::ProtocolVersionMismatch { expected: i32::MIN, actual: i32::MAX }.to_string(),
        "SDK protocol version mismatch: SDK expects version -2147483648, but server reports version 2147483647. Please update your SDK or server to ensure compatibility"
    );
}

#[test]
fn session_makes_a_session_error() {
    match CopilotError::session("gone") {
        CopilotError::Session(m) => assert_eq!(m, "gone"),
        other => panic!("unexpected {:?}", other),
    }
}
