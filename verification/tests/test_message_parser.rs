//! Tests for the persistent backend's codec.

use code_agent_sdk::control::message_parser::parse_message;
use code_agent_sdk::jsontext::parse_json;
use code_agent_sdk::{ContentBlock, Error, Json, Message, UserContent};

fn ev(s: &str) -> Json {
    parse_json(s).expect("test event must be valid JSON")
}

#[test]
fn test_parse_valid_user_message() {
    let data = ev(r#"{"type": "user", "message": {"content": [{"type": "text", "text": "Hello"}]}}"#);
    let msg = parse_message(&data).unwrap().expect("should parse");
    match msg {
        Message::User(u) => match &u.content {
            UserContent::Blocks(blocks) => {
                assert_eq!(blocks.len(), 1);
                match &blocks[0] {
                    ContentBlock::Text(t) => assert_eq!(t.text, "Hello"),
                    _ => panic!("expected TextBlock"),
                }
            }
            _ => panic!("expected Blocks"),
        },
        _ => panic!("expected UserMessage"),
    }
}

#[test]
fn test_parse_user_message_with_uuid() {
    let data = ev(
        r#"{"type": "user", "uuid": "msg-abc123-def456",
            "message": {"content": [{"type": "text", "text": "Hello"}]}}"#,
    );
    let msg = parse_message(&data).unwrap().expect("should parse");
    match msg {
        Message::User(u) => assert_eq!(u.uuid.as_deref(), Some("msg-abc123-def456")),
        _ => panic!("expected UserMessage"),
    }
}

#[test]
fn test_parse_user_message_with_tool_use() {
    let data = ev(
        r#"{"type": "user", "message": {"content": [
            {"type": "text", "text": "Let me read this file"},
            {"type": "tool_use", "id": "tool_456", "name": "Read",
             "input": {"file_path": "/example.txt"}}]}}"#,
    );
    let msg = parse_message(&data).unwrap().expect("should parse");
    match msg {
        Message::User(u) => match &u.content {
            UserContent::Blocks(blocks) => {
                assert_eq!(blocks.len(), 2);
                match &blocks[1] {
                    ContentBlock::ToolUse(t) => {
                        assert_eq!(t.id, "tool_456");
                        assert_eq!(t.name, "Read");
                        assert_eq!(t.input.get_str("file_path").unwrap(), "/example.txt");
                    }
                    _ => panic!("expected ToolUseBlock"),
                }
            }
            _ => panic!("expected Blocks"),
        },
        _ => panic!("expected UserMessage"),
    }
}

#[test]
fn test_parse_user_message_with_tool_result() {
    let data = ev(
        r#"{"type": "user", "message": {"content": [
            {"type": "tool_result", "tool_use_id": "tool_789",
             "content": "File contents here"}]}}"#,
    );
    let msg = parse_message(&data).unwrap().expect("should parse");
    match msg {
        Message::User(u) => match &u.content {
            UserContent::Blocks(blocks) => match &blocks[0] {
                ContentBlock::ToolResult(t) => {
                    assert_eq!(t.tool_use_id, "tool_789");
                    assert_eq!(
                        t.content.as_ref().and_then(|v| v.as_str()).map(|s| s.as_str()),
                        Some("File contents here")
                    );
                }
                _ => panic!("expected ToolResultBlock"),
            },
            _ => panic!("expected Blocks"),
        },
        _ => panic!("expected UserMessage"),
    }
}

#[test]
fn test_parse_valid_assistant_message() {
    let data = ev(
        r#"{"type": "assistant", "message": {"content": [
            {"type": "text", "text": "Hello"},
            {"type": "tool_use", "id": "tool_123", "name": "Read",
             "input": {"file_path": "/test.txt"}}],
            "model": "opus-4-1-20250805"}}"#,
    );
    let msg = parse_message(&data).unwrap().expect("should parse");
    match msg {
        Message::Assistant(a) => {
            assert_eq!(a.content.len(), 2);
            assert_eq!(a.model, "opus-4-1-20250805");
        }
        _ => panic!("expected AssistantMessage"),
    }
}

#[test]
fn test_parse_assistant_message_with_thinking() {
    let data = ev(
        r#"{"type": "assistant", "message": {"content": [
            {"type": "thinking", "thinking": "I'm thinking about the answer...",
             "signature": "sig-123"},
            {"type": "text", "text": "Here's my response"}],
            "model": "opus-4-1-20250805"}}"#,
    );
    let msg = parse_message(&data).unwrap().expect("should parse");
    match msg {
        Message::Assistant(a) => {
            assert_eq!(a.content.len(), 2);
            match &a.content[0] {
                ContentBlock::Thinking(t) => {
                    assert_eq!(t.thinking, "I'm thinking about the answer...");
                    assert_eq!(t.signature, "sig-123");
                }
                _ => panic!("expected ThinkingBlock"),
            }
        }
        _ => panic!("expected AssistantMessage"),
    }
}

#[test]
fn test_parse_valid_system_message() {
    let data = ev(r#"{"type": "system", "subtype": "start"}"#);
    let msg = parse_message(&data).unwrap().expect("should parse");
    match msg {
        Message::System(s) => assert_eq!(s.subtype, "start"),
        _ => panic!("expected SystemMessage"),
    }
}

#[test]
fn test_parse_valid_result_message() {
    let data = ev(
        r#"{"type": "result", "subtype": "success", "duration_ms": 1000,
            "duration_api_ms": 500, "is_error": false, "num_turns": 1,
            "session_id": "session_123"}"#,
    );
    let msg = parse_message(&data).unwrap().expect("should parse");
    match msg {
        Message::Result(r) => {
            assert_eq!(r.subtype, "success");
            assert_eq!(r.duration_ms, 1000);
            assert_eq!(r.duration_api_ms, 500);
            assert_eq!(r.session_id, "session_123");
        }
        _ => panic!("expected ResultMessage"),
    }
}

#[test]
fn test_parse_invalid_data_type() {
    let data = ev(r#""not a dict""#);
    let err = parse_message(&data).unwrap_err();
    match err {
        Error::MessageParse(m) => {
            assert!(m.contains("expected object"));
            assert!(m.contains("string"));
        }
        _ => panic!("expected MessageParse error"),
    }
}

#[test]
fn test_parse_missing_type_field() {
    let data = ev(r#"{"message": {"content": "Hello"}}"#);
    let err = parse_message(&data).unwrap_err();
    match err {
        Error::MessageParse(m) => assert!(m.contains("'type'")),
        _ => panic!("expected MessageParse error"),
    }
}

#[test]
fn test_parse_unknown_message_type() {
    let data = ev(r#"{"type": "unknown_type"}"#);
    assert!(parse_message(&data).unwrap().is_none());
}

#[test]
fn test_parse_user_message_missing_fields() {
    let data = ev(r#"{"type": "user"}"#);
    assert!(parse_message(&data).is_err());
}

#[test]
fn test_result_message_missing_is_error() {
    let data = ev(
        r#"{"type": "result", "subtype": "success", "duration_ms": 1000,
            "duration_api_ms": 500, "num_turns": 1, "session_id": "session_123"}"#,
    );
    let err = parse_message(&data).unwrap_err();
    match err {
        Error::MessageParse(m) => assert!(m.contains("is_error"), "Expected is_error in error: {}", m),
        _ => panic!("expected MessageParse error"),
    }
}

#[test]
fn test_result_message_missing_num_turns() {
    let data = ev(
        r#"{"type": "result", "subtype": "success", "duration_ms": 1000,
            "duration_api_ms": 500, "is_error": false, "session_id": "session_123"}"#,
    );
    let err = parse_message(&data).unwrap_err();
    match err {
        Error::MessageParse(m) => {
            assert!(m.contains("num_turns"), "Expected num_turns in error: {}", m)
        }
        _ => panic!("expected MessageParse error"),
    }
}

#[test]
fn test_result_message_missing_session_id() {
    let data = ev(
        r#"{"type": "result", "subtype": "success", "duration_ms": 1000,
            "duration_api_ms": 500, "is_error": false, "num_turns": 1}"#,
    );
    let err = parse_message(&data).unwrap_err();
    match err {
        Error::MessageParse(m) => {
            assert!(m.contains("session_id"), "Expected session_id in error: {}", m)
        }
        _ => panic!("expected MessageParse error"),
    }
}

#[test]
fn test_thinking_block_missing_signature() {
    let data = ev(
        r#"{"type": "assistant", "message": {"content": [
            {"type": "thinking", "thinking": "I'm thinking..."}],
            "model": "opus-4-1-20250805"}}"#,
    );
    let err = parse_message(&data).unwrap_err();
    match err {
        Error::MessageParse(m) => {
            assert!(m.contains("signature"), "Expected signature in error: {}", m)
        }
        _ => panic!("expected MessageParse error"),
    }
}

#[test]
fn test_tool_use_block_missing_input() {
    let data = ev(
        r#"{"type": "assistant", "message": {"content": [
            {"type": "tool_use", "id": "tool_123", "name": "Read"}],
            "model": "opus-4-1-20250805"}}"#,
    );
    let err = parse_message(&data).unwrap_err();
    match err {
        Error::MessageParse(m) => assert!(m.contains("input"), "Expected input in error: {}", m),
        _ => panic!("expected MessageParse error"),
    }
}
