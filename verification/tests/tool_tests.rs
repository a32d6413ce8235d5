use copilot_sdk::json::Json;
use copilot_sdk::tool::{IntoToolResult, ToolBuilder, ToolResult};

#[test]
fn test_tool_result_success() {
    let result = ToolResult::success("Hello");
    assert_eq!(result.result_type, "success");
    assert_eq!(result.text_result_for_llm, "Hello");
    assert!(result.error.is_none());
}

#[test]
fn test_tool_result_failure() {
    let result = ToolResult::failure("Something went wrong");
    assert_eq!(result.result_type, "failure");
    assert!(result.error.is_some());
}

#[test]
fn test_tool_result_unsupported() {
    let result = ToolResult::unsupported("unknown_tool");
    assert_eq!(result.result_type, "failure");
    assert!(result.text_result_for_llm.contains("unknown_tool"));
}

#[test]
fn unsupported_names_the_tool_in_text_and_error() {
    let result = ToolResult::unsupported("lookup");
    assert_eq!(
        result.text_result_for_llm,
        "Tool 'lookup' is not supported by this client instance."
    );
    assert_eq!(result.error.as_deref(), Some("tool 'lookup' not supported"));
}

#[test]
fn failure_keeps_the_error_and_hides_the_detail() {
    let result = ToolResult::failure("boom");
    assert_eq!(
        result.text_result_for_llm,
        "Invoking this tool produced an error. Detailed information is not available."
    );
    assert_eq!(result.error.as_deref(), Some("boom"));
}

#[test]
fn tool_result_wire_form_skips_what_is_unset() {
    let text = String::from_utf8(ToolResult::success("42").to_json().to_bytes()).unwrap();
    assert_eq!(text, "{\"resultType\":\"success\",\"textResultForLlm\":\"42\"}");
    let logged = ToolResult::failure("e").session_log("log");
    let text = String::from_utf8(logged.to_json().to_bytes()).unwrap();
    assert_eq!(
        text,
        "{\"error\":\"e\",\"resultType\":\"failure\",\"sessionLog\":\"log\",\"textResultForLlm\":\"Invoking this tool produced an error. Detailed information is not available.\"}"
    );
}

#[test]
fn values_convert_into_tool_results() {
    let from_string = "done".to_string().into_tool_result().unwrap();
    assert_eq!(from_string.text_result_for_llm, "done");
    assert_eq!(from_string.result_type, "success");
    let from_str = "ok".into_tool_result().unwrap();
    assert_eq!(from_str.text_result_for_llm, "ok");
    let from_unit = ().into_tool_result().unwrap();
    assert_eq!(from_unit.text_result_for_llm, "");
    assert_eq!(from_unit.result_type, "success");
    let mut value = Json::object();
    value.set("status", Json::string("ok"));
    let from_json = value.into_tool_result().unwrap();
    assert_eq!(from_json.text_result_for_llm, "{\"status\":\"ok\"}");
    let kept = ToolResult::failure("x").into_tool_result().unwrap();
    assert_eq!(kept.result_type, "failure");
}

#[test]
fn builder_makes_a_tool_with_its_handler() {
    let tool = ToolBuilder::new("echo")
        .description("Echoes")
        .parameters(Json::object())
        .handler(7u32);
    assert_eq!(tool.name, "echo");
    assert_eq!(tool.description, "Echoes");
    assert_eq!(tool.parameters, Some(Json::object()));
    assert_eq!(tool.handler, Some(7));
    let text = String::from_utf8(tool.to_definition().to_bytes()).unwrap();
    assert_eq!(text, "{\"description\":\"Echoes\",\"name\":\"echo\",\"parameters\":{}}");
}

#[test]
fn a_broken_handler_gives_a_failure_that_names_the_tool() {
    let result = ToolResult::faulted("double");
    assert_eq!(result.result_type, "failure");
    assert_eq!(result.error.as_deref(), Some("tool 'double' failed"));
    assert_eq!(
        result.text_result_for_llm,
        "Invoking this tool produced an error. Detailed information is not available."
    );
}
