use copilot_sdk::base64::encode;
use copilot_sdk::json::Json;
use copilot_sdk::tools::{Tool, ToolResult};

#[test]
fn test_tool_creation() {
    let mut param1 = Json::object();
    param1.set("type", Json::string("string"));
    let mut properties = Json::object();
    properties.set("param1", param1);
    let mut schema = Json::object();
    schema.set("type", Json::string("object"));
    schema.set("properties", properties);
    let tool = Tool::new("test_tool", "A test tool", schema);

    assert_eq!(tool.name, "test_tool");
    assert_eq!(tool.description, "A test tool");
}

#[test]
fn test_simple_tool() {
    let tool = Tool::simple("simple", "Simple tool");

    assert_eq!(tool.name, "simple");
    let schema = tool.parameters;
    assert_eq!(schema.get_str("type"), Some("object"));
}

#[test]
fn test_tool_result_text() {
    let result = ToolResult::text("Hello");

    assert_eq!(result.content, Some("Hello".to_string()));
    assert_eq!(result.success, Some(true));
    assert!(result.error.is_none());
}

#[test]
fn test_tool_result_error() {
    let result = ToolResult::error("Something went wrong");

    assert_eq!(result.error, Some("Something went wrong".to_string()));
    assert_eq!(result.success, Some(false));
    assert!(result.content.is_none());
}

#[test]
fn test_tool_result_binary() {
    let data = vec![1, 2, 3, 4];
    let result = ToolResult::binary(data, "application/octet-stream");

    assert!(result.data.is_some());
    assert_eq!(
        result.mime_type,
        Some("application/octet-stream".to_string())
    );
    assert_eq!(result.success, Some(true));
}

#[test]
fn test_tool_result_with_telemetry() {
    let telemetry = vec![("duration_ms".to_string(), Json::integer(42))];

    let result = ToolResult::text("Done").with_telemetry(telemetry.clone());

    assert_eq!(result.content, Some("Done".to_string()));
    assert!(result.telemetry.is_some());
    assert_eq!(
        result.telemetry.unwrap().iter().find(|(k, _)| k == "duration_ms").map(|(_, v)| v),
        Some(&Json::integer(42))
    );
}

#[test]
fn binary_result_holds_base64() {
    let result = ToolResult::binary(vec![1, 2, 3, 4], "application/octet-stream");
    assert_eq!(result.data, Some("AQIDBA==".to_string()));
}

#[test]
fn base64_of_known_texts() {
    assert_eq!(encode(b""), "");
    assert_eq!(encode(b"f"), "Zg==");
    assert_eq!(encode(b"fo"), "Zm8=");
    assert_eq!(encode(b"foo"), "Zm9v");
    assert_eq!(encode(b"foob"), "Zm9vYg==");
    assert_eq!(encode(b"fooba"), "Zm9vYmE=");
    assert_eq!(encode(b"foobar"), "Zm9vYmFy");
    assert_eq!(encode(&[0xfb, 0xff, 0xfe]), "+//+");
}

#[test]
fn simple_tool_takes_no_parameters() {
    let tool = Tool::simple("simple", "Simple tool");
    assert_eq!(
        String::from_utf8(tool.parameters.to_bytes()).unwrap(),
        "{\"properties\":{},\"required\":[],\"type\":\"object\"}"
    );
}
