//! Tests for the message model and option types.

use code_agent_sdk::jsontext::parse_json;
use code_agent_sdk::{
    AgentOptions, AgentOptionsBuilder, AssistantMessage, ContentBlock, JsonNum, PermissionMode,
    ResultMessage, TextBlock, ToolResultBlock, ToolUseBlock, UserContent, UserMessage,
};

#[test]
fn test_user_message_creation() {
    let msg = UserMessage {
        content: UserContent::Text("Hello there!".to_string()),
        uuid: None,
        parent_tool_use_id: None,
        tool_use_result: None,
    };
    match &msg.content {
        UserContent::Text(s) => assert_eq!(s, "Hello there!"),
        _ => panic!("expected string content"),
    }
}

#[test]
fn test_assistant_message_with_text() {
    let text_block = TextBlock { text: "Hello, human!".to_string() };
    let msg = AssistantMessage {
        content: vec![ContentBlock::Text(text_block)],
        model: "opus-4-1-20250805".to_string(),
        parent_tool_use_id: None,
        error: None,
    };
    assert_eq!(msg.content.len(), 1);
    match &msg.content[0] {
        ContentBlock::Text(t) => assert_eq!(t.text, "Hello, human!"),
        _ => panic!("expected TextBlock"),
    }
}

#[test]
fn test_tool_use_block() {
    let block = ToolUseBlock {
        id: "tool-123".to_string(),
        name: "Read".to_string(),
        input: parse_json(r#"{"file_path": "/test.txt"}"#).unwrap(),
    };
    assert_eq!(block.id, "tool-123");
    assert_eq!(block.name, "Read");
    assert_eq!(block.input.get_str("file_path").unwrap(), "/test.txt");
}

#[test]
fn test_tool_result_block() {
    let block = ToolResultBlock {
        tool_use_id: "tool-123".to_string(),
        content: Some(parse_json(r#""File contents here""#).unwrap()),
        is_error: Some(false),
    };
    assert_eq!(block.tool_use_id, "tool-123");
    assert_eq!(
        block.content.as_ref().and_then(|v| v.as_str()).map(|s| s.as_str()),
        Some("File contents here")
    );
    assert_eq!(block.is_error, Some(false));
}

#[test]
fn test_result_message() {
    let msg = ResultMessage {
        subtype: "success".to_string(),
        duration_ms: 1500,
        duration_api_ms: 1200,
        is_error: false,
        num_turns: 1,
        session_id: "session-123".to_string(),
        total_cost_usd: Some(JsonNum::Dec("0.01".to_string())),
        usage: None,
        result: None,
        structured_output: None,
    };
    assert_eq!(msg.subtype, "success");
    assert!(matches!(&msg.total_cost_usd, Some(JsonNum::Dec(c)) if c == "0.01"));
    assert_eq!(msg.session_id, "session-123");
}

#[test]
fn test_default_options() {
    let options = AgentOptions::default();
    assert!(options.allowed_tools.is_empty());
    assert!(options.system_prompt.is_none());
    assert!(options.permission_mode.is_none());
    assert!(!options.continue_conversation);
    assert!(options.disallowed_tools.is_empty());
}

#[test]
fn test_options_with_tools() {
    let options = AgentOptionsBuilder::new()
        .allowed_tools(vec!["Read".to_string(), "Write".to_string(), "Edit".to_string()])
        .disallowed_tools(vec!["Bash".to_string()])
        .build();
    assert_eq!(options.allowed_tools, vec!["Read", "Write", "Edit"]);
    assert_eq!(options.disallowed_tools, vec!["Bash"]);
}

#[test]
fn test_options_with_permission_mode() {
    let options = AgentOptionsBuilder::new()
        .permission_mode(PermissionMode::from_label("bypassPermissions"))
        .build();
    assert_eq!(options.permission_mode, Some(PermissionMode::BypassPermissions));
}

#[test]
fn test_options_with_system_prompt() {
    let options =
        AgentOptionsBuilder::new().system_prompt("You are a helpful assistant.".to_string()).build();
    assert!(options.system_prompt.is_some());
}

#[test]
fn test_options_continuation() {
    let options = AgentOptionsBuilder::new()
        .continue_conversation(true)
        .resume("session-123".to_string())
        .build();
    assert!(options.continue_conversation);
    assert_eq!(options.resume.as_deref(), Some("session-123"));
}

#[test]
fn test_sdk_mcp_tool_creation() {
    let tool = code_agent_sdk::sdk_mcp_tool(
        "echo",
        "Echo the input",
        parse_json(r#"{"type": "object", "properties": {"text": {"type": "string"}}}"#).unwrap(),
    );
    assert_eq!(tool.name, "echo");
    assert_eq!(tool.description, "Echo the input");
}

#[test]
fn test_create_sdk_mcp_server() {
    let tool = code_agent_sdk::sdk_mcp_tool(
        "add",
        "Add numbers",
        parse_json(r#"{"type": "object"}"#).unwrap(),
    );
    let server = code_agent_sdk::create_sdk_mcp_server("calc", "2.0.0", vec![tool]);
    assert_eq!(server.name, "calc");
    assert_eq!(server.version, "2.0.0");
    assert_eq!(server.tools.len(), 1);
    assert_eq!(server.tools[0].name, "add");
}
