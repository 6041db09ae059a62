//! Tests for the spawn-per-turn backend's codec.

use code_agent_sdk::cursor::message_parser::parse_cursor_event;
use code_agent_sdk::jsontext::parse_json;
use code_agent_sdk::{ContentBlock, Json, Message};

fn ev(s: &str) -> Json {
    parse_json(s).expect("test event must be valid JSON")
}

#[test]
fn test_should_parse_system_init() {
    let data = ev(r#"{"type": "system", "subtype": "init", "chatId": "abc-123"}"#);
    let msg = parse_cursor_event(&data).unwrap().expect("should parse");
    match msg {
        Message::System(s) => assert_eq!(s.subtype, "init"),
        _ => panic!("expected SystemMessage"),
    }
}

#[test]
fn test_should_parse_assistant_text() {
    let data = ev(r#"{"type": "assistant", "text": "Hello from Cursor!", "model": "gpt-5"}"#);
    let msg = parse_cursor_event(&data).unwrap().expect("should parse");
    match msg {
        Message::Assistant(a) => {
            assert_eq!(a.content.len(), 1);
            match &a.content[0] {
                ContentBlock::Text(t) => assert_eq!(t.text, "Hello from Cursor!"),
                _ => panic!("expected TextBlock"),
            }
            assert_eq!(a.model, "gpt-5");
        }
        _ => panic!("expected AssistantMessage"),
    }
}

#[test]
fn test_should_parse_tool_call_started() {
    let data = ev(
        r#"{"type": "tool_call", "subtype": "started", "id": "tc-1",
            "name": "Read", "input": {"file_path": "/foo.txt"}}"#,
    );
    let msg = parse_cursor_event(&data).unwrap().expect("should parse");
    match msg {
        Message::Assistant(a) => match &a.content[0] {
            ContentBlock::ToolUse(t) => {
                assert_eq!(t.id, "tc-1");
                assert_eq!(t.name, "Read");
                assert_eq!(t.input.get_str("file_path").unwrap(), "/foo.txt");
            }
            _ => panic!("expected ToolUseBlock"),
        },
        _ => panic!("expected AssistantMessage"),
    }
}

#[test]
fn test_should_parse_tool_call_completed() {
    let data = ev(
        r#"{"type": "tool_call", "subtype": "completed", "tool_use_id": "tc-1",
            "output": "file contents here", "is_error": false}"#,
    );
    let msg = parse_cursor_event(&data).unwrap().expect("should parse");
    match msg {
        Message::Assistant(a) => match &a.content[0] {
            ContentBlock::ToolResult(t) => {
                assert_eq!(t.tool_use_id, "tc-1");
                assert_eq!(t.is_error, Some(false));
            }
            _ => panic!("expected ToolResultBlock"),
        },
        _ => panic!("expected AssistantMessage"),
    }
}

#[test]
fn test_should_parse_result_event() {
    let data = ev(
        r#"{"type": "result", "subtype": "success", "duration_ms": 5000,
            "session_id": "chat-456", "is_error": false, "num_turns": 3}"#,
    );
    let msg = parse_cursor_event(&data).unwrap().expect("should parse");
    match msg {
        Message::Result(r) => {
            assert_eq!(r.subtype, "success");
            assert_eq!(r.duration_ms, 5000);
            assert_eq!(r.session_id, "chat-456");
            assert_eq!(r.num_turns, 3);
        }
        _ => panic!("expected ResultMessage"),
    }
}

#[test]
fn test_should_return_none_for_unknown_type() {
    let data = ev(r#"{"type": "unknown_event_type"}"#);
    assert!(parse_cursor_event(&data).unwrap().is_none());
}
