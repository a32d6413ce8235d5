use copilot_sdk::error::{CopilotError, JsonRpcError};
use copilot_sdk::framing::{encode_frame, FrameError};
use copilot_sdk::json::Json;
use copilot_sdk::jsonrpc::{
    as_i32, complete_stopped, message_kind, opt_member, respond, respond_method_not_found, write_loop, Incoming,
    JsonRpcClient, JsonRpcErrorResponse, JsonRpcNotification, JsonRpcRequest, JsonRpcResponse,
    MessageKind, ReadStep,
};

type Endpoint = JsonRpcClient<u32, &'static str, u8, u8>;

fn text(bytes: Vec<u8>) -> String {
    String::from_utf8(bytes).unwrap()
}

fn parsed(source: &str) -> Json {
    Json::parse(source.as_bytes()).unwrap()
}

#[test]
fn test_jsonrpc_error_serialization() {
    let error = JsonRpcErrorResponse {
        code: -32600,
        message: "Invalid Request".to_string(),
        data: None,
    };

    let json = error.to_json().to_bytes();
    let deserialized = JsonRpcErrorResponse::from_json(&Json::parse(&json).unwrap()).unwrap();

    assert_eq!(deserialized.code, -32600);
    assert_eq!(deserialized.message, "Invalid Request");
}

#[test]
fn error_objects_are_written_and_read() {
    let error = JsonRpcErrorResponse {
        code: -32602,
        message: "Invalid params".to_string(),
        data: Some(Json::string("extra")),
    };
    assert_eq!(
        text(error.to_json().to_bytes()),
        "{\"code\":-32602,\"data\":\"extra\",\"message\":\"Invalid params\"}"
    );
    let back = JsonRpcErrorResponse::from_json(&error.to_json()).unwrap();
    assert_eq!(back.code, -32602);
    assert_eq!(back.data, Some(Json::string("extra")));
    assert!(JsonRpcErrorResponse::from_json(&parsed("{\"code\":1}")).is_none());
    assert!(JsonRpcErrorResponse::from_json(&parsed("{\"message\":\"m\"}")).is_none());
    assert!(JsonRpcErrorResponse::from_json(&parsed("{\"code\":1.5,\"message\":\"m\"}")).is_none());
    assert!(JsonRpcErrorResponse::from_json(&parsed("{\"code\":2147483648,\"message\":\"m\"}")).is_none());
    assert!(JsonRpcErrorResponse::from_json(&parsed("{\"code\":\"1\",\"message\":\"m\"}")).is_none());
    let null_data = JsonRpcErrorResponse::from_json(&parsed("{\"code\":-2147483648,\"message\":\"m\",\"data\":null}")).unwrap();
    assert_eq!(null_data.code, i32::MIN);
    assert_eq!(null_data.data, None);
}

#[test]
fn members_and_integers_are_read() {
    let v = parsed("{\"a\":null,\"b\":1,\"c\":2147483647,\"d\":-2147483649}");
    assert_eq!(opt_member(&v, "a"), None);
    assert_eq!(opt_member(&v, "missing"), None);
    assert_eq!(opt_member(&v, "b"), Some(Json::integer(1)));
    assert_eq!(as_i32(v.get("b").unwrap()), Some(1));
    assert_eq!(as_i32(v.get("c").unwrap()), Some(i32::MAX));
    assert_eq!(as_i32(v.get("d").unwrap()), None);
    assert_eq!(as_i32(v.get("a").unwrap()), None);
}

#[test]
fn messages_are_told_apart_by_their_members() {
    assert_eq!(message_kind(&parsed("{\"id\":1,\"method\":\"m\"}")), MessageKind::Request);
    assert_eq!(message_kind(&parsed("{\"id\":\"a\",\"result\":1}")), MessageKind::Response);
    assert_eq!(message_kind(&parsed("{\"id\":null}")), MessageKind::Response);
    assert_eq!(message_kind(&parsed("{\"method\":\"m\"}")), MessageKind::Notification);
    assert_eq!(message_kind(&parsed("{\"jsonrpc\":\"2.0\"}")), MessageKind::Other);
    assert_eq!(message_kind(&parsed("[\"id\",\"method\"]")), MessageKind::Other);
    assert_eq!(message_kind(&parsed("\"id\"")), MessageKind::Other);
}

#[test]
fn requests_are_written_and_read() {
    let request = JsonRpcRequest {
        jsonrpc: "2.0".to_string(),
        id: Json::string("r1"),
        method: "ping".to_string(),
        params: Some(Json::object()),
    };
    assert_eq!(
        text(request.to_json().to_bytes()),
        "{\"id\":\"r1\",\"jsonrpc\":\"2.0\",\"method\":\"ping\",\"params\":{}}"
    );
    let back = JsonRpcRequest::from_json(&request.to_json()).unwrap();
    assert_eq!(back.id, Json::string("r1"));
    assert_eq!(back.method, "ping");
    assert_eq!(back.params, Some(Json::object()));
    let bare = JsonRpcRequest::from_json(&parsed("{\"jsonrpc\":\"2.0\",\"id\":7,\"method\":\"m\"}")).unwrap();
    assert_eq!(bare.id, Json::integer(7));
    assert_eq!(bare.params, None);
    assert!(JsonRpcRequest::from_json(&parsed("{\"id\":7,\"method\":\"m\"}")).is_none());
    assert!(JsonRpcRequest::from_json(&parsed("{\"jsonrpc\":\"2.0\",\"method\":\"m\"}")).is_none());
    assert!(JsonRpcRequest::from_json(&parsed("{\"jsonrpc\":\"2.0\",\"id\":7,\"method\":5}")).is_none());
}

#[test]
fn responses_are_written_and_read() {
    let ok = JsonRpcResponse::from_json(&parsed("{\"jsonrpc\":\"2.0\",\"id\":\"a\",\"result\":{\"x\":1}}")).unwrap();
    assert_eq!(ok.id, Some(Json::string("a")));
    assert_eq!(ok.clone().into_outcome().unwrap(), parsed("{\"x\":1}"));
    assert_eq!(text(ok.to_json().to_bytes()), "{\"id\":\"a\",\"jsonrpc\":\"2.0\",\"result\":{\"x\":1}}");
    let failed = JsonRpcResponse::from_json(&parsed(
        "{\"jsonrpc\":\"2.0\",\"id\":\"a\",\"error\":{\"code\":-32000,\"message\":\"no\",\"data\":[1]}}",
    ))
    .unwrap();
    let error = failed.into_outcome().unwrap_err();
    assert_eq!(error.code, -32000);
    assert_eq!(error.message, "no");
    assert_eq!(error.data, Some(parsed("[1]")));
    let empty = JsonRpcResponse::from_json(&parsed("{\"jsonrpc\":\"2.0\",\"id\":\"a\"}")).unwrap();
    assert_eq!(empty.into_outcome().unwrap(), Json::Null);
    assert!(JsonRpcResponse::from_json(&parsed("{\"id\":\"a\",\"result\":1}")).is_none());
    assert!(JsonRpcResponse::from_json(&parsed("{\"jsonrpc\":\"2.0\",\"id\":\"a\",\"error\":\"bad\"}")).is_none());
}

#[test]
fn notifications_are_written_and_read() {
    let n = JsonRpcNotification {
        jsonrpc: "2.0".to_string(),
        method: "session.event".to_string(),
        params: None,
    };
    assert_eq!(text(n.to_json().to_bytes()), "{\"jsonrpc\":\"2.0\",\"method\":\"session.event\"}");
    let back = JsonRpcNotification::from_json(&parsed("{\"jsonrpc\":\"2.0\",\"method\":\"m\",\"params\":[1,2]}")).unwrap();
    assert_eq!(back.method, "m");
    assert_eq!(back.params, Some(parsed("[1,2]")));
    assert!(JsonRpcNotification::from_json(&parsed("{\"method\":\"m\"}")).is_none());
}

#[test]
fn a_request_waits_until_its_response_comes() {
    let mut endpoint = Endpoint::new();
    assert!(endpoint.is_running());
    assert_eq!(endpoint.pending_count(), 0);
    let sent = endpoint
        .request_with_id("id-1".to_string(), "ping", parsed("{\"message\":\"hi\"}"), 11)
        .ok()
        .unwrap();
    assert_eq!(sent.id, "id-1");
    assert_eq!(sent.displaced, None);
    assert_eq!(
        text(sent.body),
        "{\"id\":\"id-1\",\"jsonrpc\":\"2.0\",\"method\":\"ping\",\"params\":{\"message\":\"hi\"}}"
    );
    assert_eq!(endpoint.pending_count(), 1);
    match endpoint.receive(b"{\"jsonrpc\":\"2.0\",\"id\":\"id-1\",\"result\":{\"message\":\"pong: hi\"}}") {
        Incoming::Response { slot, outcome } => {
            assert_eq!(slot, 11);
            assert_eq!(outcome.unwrap(), parsed("{\"message\":\"pong: hi\"}"));
        }
        _ => panic!("expected a response"),
    }
    assert_eq!(endpoint.pending_count(), 0);
    assert!(matches!(
        endpoint.receive(b"{\"jsonrpc\":\"2.0\",\"id\":\"id-1\",\"result\":1}"),
        Incoming::Ignored
    ));
}

#[test]
fn an_error_response_completes_the_request_with_the_error() {
    let mut endpoint = Endpoint::new();
    endpoint.request_with_id("e".to_string(), "m", Json::Null, 1).ok().unwrap();
    match endpoint.receive(b"{\"jsonrpc\":\"2.0\",\"id\":\"e\",\"error\":{\"code\":-32601,\"message\":\"Method not found\"}}") {
        Incoming::Response { slot, outcome } => {
            assert_eq!(slot, 1);
            let error = outcome.unwrap_err();
            assert_eq!(error.code, JsonRpcError::METHOD_NOT_FOUND);
            assert_eq!(error.message, "Method not found");
            let converted: CopilotError = error.into();
            assert_eq!(converted.to_string(), "JSON-RPC error -32601: Method not found");
        }
        _ => panic!("expected a response"),
    }
    assert_eq!(endpoint.pending_count(), 0);
}

#[test]
fn a_response_with_an_id_of_another_type_is_ignored() {
    let mut endpoint = Endpoint::new();
    endpoint.request_with_id("7".to_string(), "m", Json::Null, 1).ok().unwrap();
    for body in [
        &b"{\"jsonrpc\":\"2.0\",\"id\":7,\"result\":1}"[..],
        b"{\"jsonrpc\":\"2.0\",\"id\":null,\"result\":1}",
        b"{\"jsonrpc\":\"2.0\",\"id\":[\"7\"],\"result\":1}",
        b"{\"jsonrpc\":\"2.0\",\"id\":\"8\",\"result\":1}",
        b"{\"id\":\"7\",\"result\":1}",
        b"{\"jsonrpc\":\"2.0\",\"id\":\"7\",\"error\":{\"code\":\"x\"}}",
        b"not json",
    ] {
        assert!(matches!(endpoint.receive(body), Incoming::Ignored));
        assert_eq!(endpoint.pending_count(), 1);
    }
    assert!(matches!(
        endpoint.receive(b"{\"jsonrpc\":\"2.0\",\"id\":\"7\",\"result\":1}"),
        Incoming::Response { slot: 1, .. }
    ));
}

#[test]
fn request_makes_ids_of_its_own() {
    let mut endpoint = Endpoint::new();
    let first = endpoint.request("ping", Json::object(), 1).ok().unwrap();
    let second = endpoint.request("ping", Json::object(), 2).ok().unwrap();
    assert_ne!(first.id, second.id);
    assert_eq!(first.id.len(), 36);
    assert_eq!(first.displaced, None);
    assert_eq!(endpoint.pending_count(), 2);
    let sent = Json::parse(&first.body).unwrap();
    assert_eq!(sent.get_str("id"), Some(first.id.as_str()));
    assert_eq!(sent.get_str("jsonrpc"), Some("2.0"));
    assert_eq!(sent.get_str("method"), Some("ping"));
    assert_eq!(endpoint.cancel(&first.id), Some(1));
    assert_eq!(endpoint.pending_count(), 1);
}

#[test]
fn a_request_under_a_used_id_displaces_the_one_that_waited() {
    let mut endpoint = Endpoint::new();
    endpoint.request_with_id("same".to_string(), "a", Json::Null, 1).ok().unwrap();
    let sent = endpoint.request_with_id("same".to_string(), "b", Json::Null, 2).ok().unwrap();
    assert_eq!(sent.displaced, Some(1));
    assert_eq!(endpoint.pending_count(), 1);
}

#[test]
fn cancel_takes_a_request_back() {
    let mut endpoint = Endpoint::new();
    endpoint.request_with_id("a".to_string(), "m", Json::Null, 5).ok().unwrap();
    assert_eq!(endpoint.cancel("b"), None);
    assert_eq!(endpoint.cancel("a"), Some(5));
    assert_eq!(endpoint.cancel("a"), None);
    assert_eq!(endpoint.pending_count(), 0);
}

#[test]
fn stop_hands_back_every_request_that_waits() {
    let mut endpoint = Endpoint::new();
    endpoint.request_with_id("a".to_string(), "m", Json::Null, 1).ok().unwrap();
    endpoint.request_with_id("b".to_string(), "m", Json::Null, 2).ok().unwrap();
    let stopped = endpoint.stop();
    assert_eq!(stopped, vec![("a".to_string(), 1), ("b".to_string(), 2)]);
    assert!(!endpoint.is_running());
    assert_eq!(endpoint.pending_count(), 0);
    assert!(matches!(
        endpoint.receive(b"{\"jsonrpc\":\"2.0\",\"id\":\"a\",\"result\":1}"),
        Incoming::Ignored
    ));
    assert_eq!(endpoint.request("m", Json::Null, 3).err(), Some(3));
    assert_eq!(endpoint.request_with_id("c".to_string(), "m", Json::Null, 4).err(), Some(4));
    assert_eq!(endpoint.pending_count(), 0);
    assert!(matches!(endpoint.notify("m", Json::Null), Err(CopilotError::ClientStopped)));
    assert!(matches!(endpoint.read_loop(&encode_frame(b"{}")), ReadStep::Stopped));
    assert!(endpoint.stop().is_empty());
}

#[test]
fn notify_gives_the_body_to_send() {
    let endpoint = Endpoint::new();
    assert_eq!(
        text(endpoint.notify("test_event", parsed("{\"event\":\"test\"}")).unwrap()),
        "{\"jsonrpc\":\"2.0\",\"method\":\"test_event\",\"params\":{\"event\":\"test\"}}"
    );
}

#[test]
fn a_notification_reaches_the_handler_as_it_was_sent() {
    let mut endpoint = Endpoint::new();
    match endpoint.receive(b"{\"jsonrpc\":\"2.0\",\"method\":\"session.event\",\"params\":{\"sessionId\":\"s\",\"n\":[1,2]}}") {
        Incoming::Notification { method, params } => {
            assert_eq!(method, "session.event");
            assert_eq!(params, parsed("{\"sessionId\":\"s\",\"n\":[1,2]}"));
        }
        _ => panic!("expected a notification"),
    }
    match endpoint.receive(b"{\"jsonrpc\":\"2.0\",\"method\":\"bare\"}") {
        Incoming::Notification { method, params } => {
            assert_eq!(method, "bare");
            assert_eq!(params, Json::Null);
        }
        _ => panic!("expected a notification"),
    }
    assert!(matches!(endpoint.receive(b"{\"method\":\"no version\"}"), Incoming::Ignored));
    let sender = Endpoint::new();
    let body = sender.notify("m", parsed("{\"p\":true}")).unwrap();
    match endpoint.receive(&body) {
        Incoming::Notification { method, params } => {
            assert_eq!(method, "m");
            assert_eq!(params, parsed("{\"p\":true}"));
        }
        _ => panic!("expected a notification"),
    }
}

#[test]
fn a_server_request_goes_to_its_handler_or_is_refused() {
    let mut endpoint = Endpoint::new();
    endpoint.set_request_handler("tool.call", "tools");
    assert_eq!(endpoint.request_handler("tool.call"), Some(&"tools"));
    assert_eq!(endpoint.request_handler("other"), None);
    match endpoint.receive(b"{\"jsonrpc\":\"2.0\",\"id\":5,\"method\":\"tool.call\",\"params\":{\"x\":1}}") {
        Incoming::Request { id, method, params } => {
            assert_eq!(id, Json::integer(5));
            assert_eq!(method, "tool.call");
            assert_eq!(params, parsed("{\"x\":1}"));
        }
        _ => panic!("expected a request"),
    }
    match endpoint.receive(b"{\"jsonrpc\":\"2.0\",\"id\":\"q\",\"method\":\"unknown\"}") {
        Incoming::Reply { body } => assert_eq!(
            text(body),
            "{\"error\":{\"code\":-32601,\"message\":\"Method not found: unknown\"},\"id\":\"q\",\"jsonrpc\":\"2.0\"}"
        ),
        _ => panic!("expected a reply"),
    }
    endpoint.remove_request_handler("tool.call");
    assert!(matches!(
        endpoint.receive(b"{\"jsonrpc\":\"2.0\",\"id\":5,\"method\":\"tool.call\"}"),
        Incoming::Reply { .. }
    ));
    assert!(matches!(
        endpoint.receive(b"{\"id\":5,\"method\":\"tool.call\"}"),
        Incoming::Ignored
    ));
}

#[test]
fn handlers_are_kept_and_replaced() {
    let mut endpoint = Endpoint::new();
    assert_eq!(endpoint.notification_handler(), None);
    assert_eq!(endpoint.on_disconnect(), None);
    endpoint.set_notification_handler(1);
    endpoint.set_notification_handler(2);
    endpoint.set_on_disconnect(9);
    assert_eq!(endpoint.notification_handler(), Some(&2));
    assert_eq!(endpoint.on_disconnect(), Some(&9));
    endpoint.set_request_handler("m", "first");
    endpoint.set_request_handler("m", "second");
    assert_eq!(endpoint.request_handler("m"), Some(&"second"));
}

#[test]
fn respond_carries_the_id_of_the_request() {
    assert_eq!(
        text(respond(Json::integer(5), Ok(parsed("{\"result\":1}")))),
        "{\"id\":5,\"jsonrpc\":\"2.0\",\"result\":{\"result\":1}}"
    );
    assert_eq!(
        text(respond(
            Json::string("a"),
            Err(CopilotError::JsonRpc { code: -32602, message: "bad".to_string(), data: Some(Json::Null) })
        )),
        "{\"error\":{\"code\":-32602,\"message\":\"bad\"},\"id\":\"a\",\"jsonrpc\":\"2.0\"}"
    );
    assert_eq!(
        text(respond(Json::string("a"), Err(CopilotError::InvalidResponse("invalid tool call payload".to_string())))),
        "{\"error\":{\"code\":-32603,\"message\":\"Invalid response: invalid tool call payload\"},\"id\":\"a\",\"jsonrpc\":\"2.0\"}"
    );
    assert_eq!(
        text(respond_method_not_found(Json::Null, "x.y")),
        "{\"error\":{\"code\":-32601,\"message\":\"Method not found: x.y\"},\"id\":null,\"jsonrpc\":\"2.0\"}"
    );
}

#[test]
fn the_read_worker_takes_one_frame_at_a_time() {
    let mut endpoint = Endpoint::new();
    endpoint.request_with_id("a".to_string(), "m", Json::Null, 1).ok().unwrap();
    let mut stream = write_loop(b"{\"jsonrpc\":\"2.0\",\"method\":\"n\"}");
    let first = stream.len();
    stream.extend_from_slice(&write_loop(b"{\"jsonrpc\":\"2.0\",\"id\":\"a\",\"result\":true}"));
    match endpoint.read_loop(&stream) {
        ReadStep::Message { incoming: Incoming::Notification { method, .. }, consumed } => {
            assert_eq!(method, "n");
            assert_eq!(consumed, first);
        }
        _ => panic!("expected a notification"),
    }
    match endpoint.read_loop(&stream[first..]) {
        ReadStep::Message { incoming: Incoming::Response { slot, outcome }, consumed } => {
            assert_eq!(slot, 1);
            assert_eq!(outcome.unwrap(), Json::Bool(true));
            assert_eq!(consumed, stream.len() - first);
        }
        _ => panic!("expected a response"),
    }
    assert!(matches!(endpoint.read_loop(b"Content-Length: 10\r\n\r\n{}"), ReadStep::NeedMore));
    assert!(matches!(
        endpoint.read_loop(b"Content-Length: 0\r\n\r\n"),
        ReadStep::Message { incoming: Incoming::Ignored, consumed: 21 }
    ));
    assert!(matches!(
        endpoint.read_loop(&write_loop(b"not json")),
        ReadStep::Message { incoming: Incoming::Ignored, consumed: 29 }
    ));
}

#[test]
fn an_oversized_frame_ends_the_read_worker() {
    let mut endpoint = Endpoint::new();
    endpoint.request_with_id("a".to_string(), "m", Json::Null, 1).ok().unwrap();
    assert!(matches!(
        endpoint.read_loop(b"Content-Length: 104857601\r\n"),
        ReadStep::Failed(FrameError::TooLarge)
    ));
    assert_eq!(endpoint.pending_count(), 1);
    assert_eq!(endpoint.stop(), vec![("a".to_string(), 1)]);
}

#[test]
fn a_hundred_requests_each_get_their_own_reply() {
    let mut endpoint = Endpoint::new();
    let mut ids = Vec::new();
    for n in 0..100u32 {
        let mut params = Json::object();
        params.set("message", Json::string(&n.to_string()));
        let sent = endpoint.request("ping", params, n).ok().unwrap();
        ids.push(sent.id);
    }
    assert_eq!(endpoint.pending_count(), 100);
    let mut order: Vec<usize> = (0..100).collect();
    for i in 0..100 {
        order.swap(i, (i * 37 + 11) % 100);
    }
    for &n in &order {
        let mut result = Json::object();
        result.set("message", Json::string(&format!("pong: {}", n)));
        let mut response = Json::object();
        response.set("jsonrpc", Json::string("2.0"));
        response.set("id", Json::string(&ids[n]));
        response.set("result", result);
        match endpoint.receive(&response.to_bytes()) {
            Incoming::Response { slot, outcome } => {
                assert_eq!(slot as usize, n);
                assert_eq!(
                    outcome.unwrap().get_str("message"),
                    Some(format!("pong: {}", n).as_str())
                );
            }
            _ => panic!("expected a response"),
        }
    }
    assert_eq!(endpoint.pending_count(), 0);
}

#[test]
fn test_jsonrpc_request_response() {
    // Two endpoints stand for the two ends of an in-memory stream
    let mut client = Endpoint::new();
    let mut server = Endpoint::new();

    // Register a simple handler that echoes the input
    server.set_request_handler("echo", "echo");

    // Send request
    let mut params = Json::object();
    params.set("message", Json::string("hello"));

    let sent = client.request("echo", params.clone(), 100).ok().unwrap();
    let to_server = write_loop(&sent.body);
    let reply = match server.read_loop(&to_server) {
        ReadStep::Message { incoming: Incoming::Request { id, method, params }, .. } => {
            assert_eq!(server.request_handler(&method), Some(&"echo"));
            write_loop(&respond(id, Ok(params)))
        }
        _ => panic!("expected a request"),
    };
    let result = match client.read_loop(&reply) {
        ReadStep::Message { incoming: Incoming::Response { slot, outcome }, .. } => {
            assert_eq!(slot, 100);
            outcome.unwrap()
        }
        _ => panic!("expected a response"),
    };

    assert_eq!(result.get("message").unwrap(), &Json::string("hello"));
}

#[test]
fn test_jsonrpc_notification() {
    let client = Endpoint::new();
    let mut server = Endpoint::new();

    // Send notification (should not error)
    let mut params = Json::object();
    params.set("event", Json::string("test"));

    let result = client.notify("test_event", params);
    assert!(result.is_ok());
    assert!(matches!(
        server.read_loop(&write_loop(&result.unwrap())),
        ReadStep::Message { incoming: Incoming::Notification { .. }, .. }
    ));
}

#[test]
fn the_disconnect_callback_is_handed_out_once() {
    let mut endpoint = Endpoint::new();
    endpoint.set_on_disconnect(9);
    endpoint.request_with_id("a".to_string(), "m", Json::Null, 1).ok().unwrap();
    let ended = endpoint.disconnect();
    assert_eq!(ended.waiting, vec![("a".to_string(), 1)]);
    assert_eq!(ended.callback, Some(9));
    assert!(!endpoint.is_running());
    let again = endpoint.disconnect();
    assert!(again.waiting.is_empty());
    assert_eq!(again.callback, None);
}

#[test]
fn stopped_requests_are_completed_with_client_stopped() {
    let mut endpoint = Endpoint::new();
    endpoint.request_with_id("a".to_string(), "m", Json::Null, 1).ok().unwrap();
    endpoint.request_with_id("b".to_string(), "m", Json::Null, 2).ok().unwrap();
    let completions = complete_stopped(endpoint.stop());
    assert_eq!(completions.len(), 2);
    assert_eq!(completions[0].id, "a");
    assert_eq!(completions[0].slot, 1);
    assert!(matches!(completions[0].error, CopilotError::ClientStopped));
    assert_eq!(completions[1].id, "b");
    assert_eq!(completions[1].slot, 2);
    assert!(matches!(completions[1].error, CopilotError::ClientStopped));
    assert!(complete_stopped(endpoint.stop()).is_empty());
}
