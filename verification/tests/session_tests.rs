use copilot_sdk::error::CopilotError;
use copilot_sdk::events::{SessionEvent, SessionEventType};
use copilot_sdk::json::Json;
use copilot_sdk::session::{
    events_of, message_id, permission_outcome, tool_outcome, wait_for_idle, wait_step,
    PermissionDispatch, Session, ToolDispatch, WaitStep, DEFAULT_WAIT_SECONDS,
};
use copilot_sdk::tool::{Tool, ToolResult};
use copilot_sdk::types::{Attachment, MessageOptions, PermissionRequestResult};

type TestSession = Session<&'static str, u32, u8>;

fn text(value: Json) -> String {
    String::from_utf8(value.to_bytes()).unwrap()
}

fn parsed(source: &str) -> Json {
    Json::parse(source.as_bytes()).unwrap()
}

fn receivers<'a>(session: &'a TestSession, event: &'a SessionEvent) -> Vec<&'a str> {
    session.dispatch_event(event).iter().map(|d| *d.subscriber).collect()
}

fn event(kind: &str, data: &str) -> SessionEvent {
    SessionEvent::from_json(&parsed(&format!(
        "{{\"id\":\"e\",\"timestamp\":\"2025-01-02T03:04:05Z\",\"type\":\"{}\",\"data\":{}}}",
        kind, data
    )))
    .unwrap()
}

#[test]
fn a_new_session_has_its_id_and_nothing_else() {
    let session = TestSession::new("s-1".to_string());
    assert_eq!(session.session_id(), "s-1");
    assert!(!session.is_destroyed());
    assert!(session.dispatch_event(&event("session.idle", "{}")).is_empty());
    assert!(matches!(session.execute_tool("any"), ToolDispatch::Unsupported(_)));
}

#[test]
fn subscribers_get_events_in_the_order_in_which_they_subscribed() {
    let mut session = TestSession::new("s".to_string());
    assert_eq!(session.on("first"), Some(0));
    assert_eq!(session.on("second"), Some(1));
    assert_eq!(session.on("third"), Some(2));
    let idle = event("session.idle", "{}");
    assert_eq!(receivers(&session, &idle), vec!["first", "second", "third"]);
    assert!(session.dispatch_event(&idle).iter().all(|d| std::ptr::eq(d.event, &idle)));
    assert_eq!(session.unsubscribe(1), Some("second"));
    assert_eq!(session.unsubscribe(1), None);
    assert_eq!(session.unsubscribe(7), None);
    assert_eq!(receivers(&session, &idle), vec!["first", "third"]);
    assert_eq!(session.on("fourth"), Some(3));
    assert_eq!(receivers(&session, &idle), vec!["first", "third", "fourth"]);
}

#[test]
fn a_destroyed_session_delivers_nothing() {
    let mut session = TestSession::new("s".to_string());
    session.on("a");
    session.register_tools(vec![Tool::new("t", "T").handler(1)]);
    session.set_permission_handler(1);
    let call = session.destroy().unwrap();
    assert_eq!(call.method, "session.destroy");
    assert_eq!(text(call.params), "{\"sessionId\":\"s\"}");
    assert!(session.is_destroyed());
    assert!(session.dispatch_event(&event("session.idle", "{}")).is_empty());
    assert!(matches!(session.execute_tool("t"), ToolDispatch::Unsupported(_)));
    assert!(matches!(session.handle_permission_request(&Json::Null), PermissionDispatch::Denied(_)));
    assert!(session.destroy().is_none());
    session.on("late");
    assert!(session.dispatch_event(&event("session.idle", "{}")).is_empty());
}

#[test]
fn tools_are_registered_by_name() {
    let mut session = TestSession::new("s".to_string());
    session.register_tools(vec![
        Tool::new("double", "Doubles").handler(1),
        Tool::new("", "No name").handler(2),
        Tool::new("no_handler", "No handler"),
        Tool::new("double", "Doubles again").handler(3),
    ]);
    match session.execute_tool("double") {
        ToolDispatch::Run(handler) => assert_eq!(*handler, 3),
        _ => panic!("expected a handler"),
    }
    match session.execute_tool("no_handler") {
        ToolDispatch::Unsupported(result) => {
            assert_eq!(result.result_type, "failure");
            assert_eq!(
                result.text_result_for_llm,
                "Tool 'no_handler' is not supported by this client instance."
            );
            assert_eq!(result.error.as_deref(), Some("tool 'no_handler' not supported"));
        }
        _ => panic!("expected no handler"),
    }
    assert!(matches!(session.execute_tool(""), ToolDispatch::Unsupported(_)));
    session.register_tools(vec![Tool::new("other", "Other").handler(4)]);
    assert!(matches!(session.execute_tool("double"), ToolDispatch::Unsupported(_)));
    assert!(matches!(session.execute_tool("other"), ToolDispatch::Run(&4)));
}

#[test]
fn tool_errors_become_failures() {
    let ok = tool_outcome(Ok(ToolResult::success("42")));
    assert_eq!(ok.text_result_for_llm, "42");
    assert_eq!(ok.result_type, "success");
    let failed = tool_outcome(Err(CopilotError::ToolExecution("Failed to parse arguments: x".to_string())));
    assert_eq!(failed.result_type, "failure");
    assert_eq!(
        failed.error.as_deref(),
        Some("Tool execution error: Failed to parse arguments: x")
    );
    assert_eq!(
        failed.text_result_for_llm,
        "Invoking this tool produced an error. Detailed information is not available."
    );
}

#[test]
fn permission_requests_are_denied_without_a_handler() {
    let mut session = TestSession::new("s-9".to_string());
    let request = parsed("{\"kind\":\"shell\",\"toolCallId\":\"t1\",\"command\":\"ls\"}");
    match session.handle_permission_request(&request) {
        PermissionDispatch::Denied(result) => {
            assert_eq!(result.kind, "denied-no-approval-rule-and-could-not-request-from-user")
        }
        _ => panic!("expected a denial"),
    }
    session.set_permission_handler(7);
    match session.handle_permission_request(&request) {
        PermissionDispatch::Ask { handler, request, invocation } => {
            assert_eq!(*handler, 7);
            assert_eq!(request.kind, "shell");
            assert_eq!(request.tool_call_id.as_deref(), Some("t1"));
            assert!(request.extra.is_empty());
            assert_eq!(invocation.session_id, "s-9");
        }
        _ => panic!("expected a question"),
    }
    match session.handle_permission_request(&Json::Null) {
        PermissionDispatch::Ask { request, .. } => {
            assert_eq!(request.kind, "");
            assert_eq!(request.tool_call_id, None);
        }
        _ => panic!("expected a question"),
    }
    assert_eq!(permission_outcome(Ok(PermissionRequestResult::approved())).kind, "approved");
    assert_eq!(
        permission_outcome(Err(CopilotError::Timeout)).kind,
        "denied-no-approval-rule-and-could-not-request-from-user"
    );
}

#[test]
fn requests_name_the_session() {
    let session = TestSession::new("s-1".to_string());
    assert_eq!(text(session.send(&MessageOptions::new("hi")).params), "{\"prompt\":\"hi\",\"sessionId\":\"s-1\"}");
    let full = MessageOptions::new("hi")
        .attachments(vec![Attachment::file("/a")])
        .mode("enqueue");
    assert_eq!(
        text(session.send(&full).params),
        "{\"attachments\":[{\"path\":\"/a\",\"type\":\"file\"}],\"mode\":\"enqueue\",\"prompt\":\"hi\",\"sessionId\":\"s-1\"}"
    );
    assert_eq!(session.send(&full).method, "session.send");
    assert_eq!(session.get_messages().method, "session.getMessages");
    assert_eq!(session.abort().method, "session.abort");
    assert_eq!(text(session.get_messages().params), "{\"sessionId\":\"s-1\"}");
    assert_eq!(text(session.abort().params), "{\"sessionId\":\"s-1\"}");
}

#[test]
fn the_message_id_is_read_from_the_answer() {
    assert_eq!(message_id(&parsed("{\"messageId\":\"m1\"}")).unwrap(), "m1");
    for bad in ["{}", "{\"messageId\":5}", "null"] {
        match message_id(&parsed(bad)) {
            Err(CopilotError::Session(m)) => assert_eq!(m, "invalid response: missing messageId"),
            _ => panic!("expected a session error"),
        }
    }
}

#[test]
fn the_history_holds_the_items_that_are_events() {
    let result = parsed(
        "{\"events\":[{\"id\":\"1\",\"timestamp\":\"2025-01-02T03:04:05Z\",\"type\":\"user.message\",\"data\":{\"content\":\"q\"}},{\"id\":\"broken\"},5,{\"id\":\"2\",\"timestamp\":\"2025-01-02T03:04:06Z\",\"type\":\"assistant.message\",\"data\":{\"content\":\"a\"}}]}",
    );
    let events = events_of(&result).unwrap();
    assert_eq!(events.len(), 2);
    assert_eq!(events[0].id, "1");
    assert_eq!(events[0].event_type, Some(SessionEventType::UserMessage));
    assert_eq!(events[1].id, "2");
    assert_eq!(events[1].content(), Some("a"));
    assert!(events_of(&parsed("{\"events\":[]}")).unwrap().is_empty());
    for bad in ["{}", "{\"events\":{}}", "{\"events\":null}"] {
        match events_of(&parsed(bad)) {
            Err(CopilotError::Session(m)) => assert_eq!(m, "invalid response: missing events"),
            _ => panic!("expected a session error"),
        }
    }
}

#[test]
fn the_wait_goes_by_the_type_of_each_event() {
    assert_eq!(DEFAULT_WAIT_SECONDS, 60);
    let a = event("assistant.message", "{\"content\":\"A\"}");
    match wait_step(None, a.clone()) {
        WaitStep::Continue(Some(last)) => assert_eq!(last.content(), Some("A")),
        _ => panic!("expected to go on with A"),
    }
    match wait_step(Some(a.clone()), event("assistant.message_delta", "{}")) {
        WaitStep::Continue(Some(last)) => assert_eq!(last.content(), Some("A")),
        _ => panic!("expected to go on with A"),
    }
    match wait_step(Some(a.clone()), event("session.idle", "{}")) {
        WaitStep::Done(Some(last)) => assert_eq!(last.content(), Some("A")),
        _ => panic!("expected the end"),
    }
    assert!(matches!(wait_step(None, event("session.idle", "{}")), WaitStep::Done(None)));
    match wait_step(Some(a.clone()), event("session.error", "{\"message\":\"boom\"}")) {
        WaitStep::Failed(CopilotError::Session(m)) => assert_eq!(m, "boom"),
        _ => panic!("expected a failure"),
    }
    match wait_step(None, event("session.error", "{}")) {
        WaitStep::Failed(CopilotError::Session(m)) => assert_eq!(m, "session error"),
        _ => panic!("expected a failure"),
    }
}

#[test]
fn send_and_wait_returns_the_last_assistant_message_and_subscribers_see_all() {
    let mut session: Session<Vec<SessionEvent>, u32, u8> = Session::new("S".to_string());
    let before = session.on(Vec::new()).unwrap();
    let wait = session.send_and_wait(&MessageOptions::new("hi"), Vec::new()).unwrap();
    assert_eq!(wait.call.method, "session.send");
    assert_eq!(text(wait.call.params), "{\"prompt\":\"hi\",\"sessionId\":\"S\"}");
    assert_eq!(message_id(&parsed("{\"messageId\":\"m1\"}")).unwrap(), "m1");
    let arriving = vec![
        event("assistant.message", "{\"content\":\"A\"}"),
        event("assistant.message", "{\"content\":\"B\"}"),
        event("session.idle", "{}"),
    ];
    let mut seen_before: Vec<SessionEvent> = Vec::new();
    let mut seen_by_watcher: Vec<SessionEvent> = Vec::new();
    for e in &arriving {
        assert_eq!(session.dispatch_event(e).len(), 2);
        seen_before.push(e.clone());
        seen_by_watcher.push(e.clone());
    }
    match wait_for_idle(seen_by_watcher) {
        WaitStep::Done(Some(last)) => assert_eq!(last.content(), Some("B")),
        _ => panic!("expected the end with B"),
    }
    assert!(session.unsubscribe(wait.subscription).is_some());
    assert_eq!(session.dispatch_event(&arriving[0]).len(), 1);
    let types: Vec<SessionEventType> = seen_before.iter().filter_map(|e| e.event_type).collect();
    assert_eq!(
        types,
        vec![
            SessionEventType::AssistantMessage,
            SessionEventType::AssistantMessage,
            SessionEventType::SessionIdle
        ]
    );
    assert_eq!(seen_before[0].content(), Some("A"));
    assert_eq!(seen_before[1].content(), Some("B"));
    assert!(session.unsubscribe(before).is_some());
}

#[test]
fn an_event_of_an_unknown_type_reaches_subscribers_and_does_not_end_a_wait() {
    let unknown = event("session.nap", "{}");
    assert_eq!(unknown.event_type, None);
    let mut session = TestSession::new("S".to_string());
    session.on("listener").unwrap();
    let deliveries = session.dispatch_event(&unknown);
    assert_eq!(deliveries.len(), 1);
    assert_eq!(deliveries[0].event.discriminator, "session.nap");
    assert!(matches!(wait_step(None, unknown), WaitStep::Continue(None)));
}

#[test]
fn a_wait_that_has_not_seen_the_end_goes_on() {
    assert!(matches!(wait_for_idle(Vec::new()), WaitStep::Continue(None)));
    let events = vec![
        event("assistant.message", "{\"content\":\"A\"}"),
        event("tool.execution_start", "{}"),
    ];
    match wait_for_idle(events) {
        WaitStep::Continue(Some(last)) => assert_eq!(last.content(), Some("A")),
        _ => panic!("expected to go on"),
    }
    let after_the_end = vec![
        event("session.idle", "{}"),
        event("assistant.message", "{\"content\":\"late\"}"),
    ];
    assert!(matches!(wait_for_idle(after_the_end), WaitStep::Done(None)));
    let failing = vec![
        event("assistant.message", "{\"content\":\"A\"}"),
        event("session.error", "{\"message\":\"boom\"}"),
        event("session.idle", "{}"),
    ];
    match wait_for_idle(failing) {
        WaitStep::Failed(CopilotError::Session(m)) => assert_eq!(m, "boom"),
        _ => panic!("expected a failure"),
    }
}

#[test]
fn a_subscriber_sees_a_prefix_of_what_arrives() {
    let mut session: Session<usize, u32, u8> = Session::new("S".to_string());
    session.on(0).unwrap();
    let mut delivered = 0;
    let mut arrived = 0;
    for round in 0..6 {
        if round == 4 {
            session.destroy();
        }
        arrived += 1;
        delivered += session.dispatch_event(&event("assistant.message", "{}")).len();
    }
    assert_eq!(arrived, 6);
    assert_eq!(delivered, 4);
}
