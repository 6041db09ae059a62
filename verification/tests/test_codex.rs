//! Tests for the app-server backend: codec, JSON-RPC helpers, and the
//! one-shot command builder.

use code_agent_sdk::codex::exec_transport::build_exec_command;
use code_agent_sdk::codex::jsonrpc::{
    build_notification, build_request, build_response, is_notification, is_request, is_response,
    RequestIdGenerator,
};
use code_agent_sdk::codex::message_parser::{parse_app_server_notification, parse_exec_event};
use code_agent_sdk::jsontext::parse_json;
use code_agent_sdk::{
    AgentOptions, AgentOptionsBuilder, CodexOptions, ContentBlock, Json, Message,
};

fn ev(s: &str) -> Json {
    parse_json(s).expect("test event must be valid JSON")
}

#[test]
fn test_should_build_request_with_correct_format() {
    let req = build_request(1, "initialize", ev(r#"{"clientName": "sdk"}"#));
    assert_eq!(req.get_str("jsonrpc").unwrap(), "2.0");
    assert_eq!(req.get_u64("id"), Some(1));
    assert_eq!(req.get_str("method").unwrap(), "initialize");
    assert_eq!(req.get("params").unwrap().get_str("clientName").unwrap(), "sdk");
}

#[test]
fn test_should_build_notification_without_id() {
    let notif = build_notification("initialized", ev("{}"));
    assert_eq!(notif.get_str("jsonrpc").unwrap(), "2.0");
    assert_eq!(notif.get_str("method").unwrap(), "initialized");
    assert!(notif.get("id").is_none());
}

#[test]
fn test_should_build_response_with_result() {
    let resp = build_response(ev("1"), ev(r#"{"status": "ok"}"#));
    assert_eq!(resp.get_str("jsonrpc").unwrap(), "2.0");
    assert_eq!(resp.get_u64("id"), Some(1));
    assert_eq!(resp.get("result").unwrap().get_str("status").unwrap(), "ok");
}

#[test]
fn test_should_classify_messages_correctly() {
    let request = ev(r#"{"jsonrpc": "2.0", "id": 1, "method": "test", "params": {}}"#);
    let notification = ev(r#"{"jsonrpc": "2.0", "method": "test", "params": {}}"#);
    let response = ev(r#"{"jsonrpc": "2.0", "id": 1, "result": {}}"#);

    assert!(is_request(&request));
    assert!(!is_notification(&request));
    assert!(!is_response(&request));

    assert!(is_notification(&notification));
    assert!(!is_request(&notification));
    assert!(!is_response(&notification));

    assert!(is_response(&response));
    assert!(!is_notification(&response));
}

#[test]
fn test_should_generate_sequential_ids() {
    let mut id_gen = RequestIdGenerator::new();
    assert_eq!(id_gen.next_id(), 1);
    assert_eq!(id_gen.next_id(), 2);
    assert_eq!(id_gen.next_id(), 3);
}

#[test]
fn test_should_parse_thread_started_as_system_init() {
    let msg = parse_app_server_notification("thread/started", &ev(r#"{"threadId": "t-123"}"#))
        .unwrap()
        .expect("should parse");
    match msg {
        Message::System(s) => {
            assert_eq!(s.subtype, "init");
            assert_eq!(s.data.get_str("threadId").unwrap(), "t-123");
        }
        _ => panic!("expected SystemMessage"),
    }
}

#[test]
fn test_should_parse_agent_message_item_completed() {
    let params = ev(
        r#"{"item": {"type": "agent_message", "rawText": "Hello from Codex!",
            "model": "o4-mini"}}"#,
    );
    let msg = parse_app_server_notification("item/completed", &params)
        .unwrap()
        .expect("should parse");
    match msg {
        Message::Assistant(a) => {
            assert_eq!(a.content.len(), 1);
            match &a.content[0] {
                ContentBlock::Text(t) => assert_eq!(t.text, "Hello from Codex!"),
                _ => panic!("expected TextBlock"),
            }
            assert_eq!(a.model, "o4-mini");
        }
        _ => panic!("expected AssistantMessage"),
    }
}

#[test]
fn test_should_parse_command_execution_item_completed() {
    let params = ev(
        r#"{"item": {"type": "command_execution", "id": "cmd-1",
            "command": "ls -la", "output": "total 42\n...", "exitCode": 0}}"#,
    );
    let msg = parse_app_server_notification("item/completed", &params)
        .unwrap()
        .expect("should parse");
    match msg {
        Message::Assistant(a) => {
            assert_eq!(a.content.len(), 2);
            match &a.content[0] {
                ContentBlock::ToolUse(t) => {
                    assert_eq!(t.name, "Bash");
                    assert_eq!(t.input.get_str("command").unwrap(), "ls -la");
                }
                _ => panic!("expected ToolUseBlock"),
            }
            match &a.content[1] {
                ContentBlock::ToolResult(t) => {
                    assert_eq!(t.tool_use_id, "cmd-1");
                    assert_eq!(t.is_error, Some(false));
                }
                _ => panic!("expected ToolResultBlock"),
            }
        }
        _ => panic!("expected AssistantMessage"),
    }
}

#[test]
fn test_should_parse_turn_completed_as_result() {
    let params = ev(r#"{"threadId": "t-456", "usage": {"input_tokens": 100, "output_tokens": 50}}"#);
    let msg = parse_app_server_notification("turn/completed", &params)
        .unwrap()
        .expect("should parse");
    match msg {
        Message::Result(r) => {
            assert_eq!(r.session_id, "t-456");
            assert!(r.usage.is_some());
        }
        _ => panic!("expected ResultMessage"),
    }
}

#[test]
fn test_should_parse_exec_message() {
    let data = ev(r#"{"type": "message", "role": "assistant", "content": "Hello from codex exec"}"#);
    let msg = parse_exec_event(&data).unwrap().expect("should parse");
    match msg {
        Message::Assistant(a) => {
            assert_eq!(a.content.len(), 1);
            match &a.content[0] {
                ContentBlock::Text(t) => assert_eq!(t.text, "Hello from codex exec"),
                _ => panic!("expected TextBlock"),
            }
        }
        _ => panic!("expected AssistantMessage"),
    }
}

#[test]
fn test_should_parse_exec_function_call() {
    let data = ev(
        r#"{"type": "function_call", "call_id": "call-1", "name": "shell",
            "arguments": "{\"command\": \"echo hi\"}"}"#,
    );
    let msg = parse_exec_event(&data).unwrap().expect("should parse");
    match msg {
        Message::Assistant(a) => match &a.content[0] {
            ContentBlock::ToolUse(t) => {
                assert_eq!(t.id, "call-1");
                assert_eq!(t.name, "shell");
                assert_eq!(t.input.get_str("command").unwrap(), "echo hi");
            }
            _ => panic!("expected ToolUseBlock"),
        },
        _ => panic!("expected AssistantMessage"),
    }
}

#[test]
fn test_should_return_none_for_unknown_notification() {
    let msg = parse_app_server_notification("unknown/method", &ev("{}")).unwrap();
    assert!(msg.is_none());
}

#[test]
fn test_should_parse_exec_item_completed_agent_message() {
    let data = ev(
        r#"{"type": "item.completed", "item": {"id": "item_0",
            "type": "agent_message", "text": "```yaml\nissues: []\n```"}}"#,
    );
    let msg = parse_exec_event(&data).unwrap().expect("should parse");
    match msg {
        Message::Assistant(a) => {
            assert_eq!(a.content.len(), 1);
            match &a.content[0] {
                ContentBlock::Text(t) => assert!(t.text.contains("issues: []")),
                _ => panic!("expected TextBlock"),
            }
        }
        _ => panic!("expected AssistantMessage"),
    }
}

#[test]
fn test_should_parse_exec_item_completed_command_execution() {
    let data = ev(
        r#"{"type": "item.completed", "item": {"id": "cmd-1",
            "type": "command_execution", "command": "git diff main -- src/main.rs",
            "output": "+new line", "exitCode": 0}}"#,
    );
    let msg = parse_exec_event(&data).unwrap().expect("should parse");
    match msg {
        Message::Assistant(a) => {
            assert_eq!(a.content.len(), 2);
            match &a.content[0] {
                ContentBlock::ToolUse(t) => {
                    assert_eq!(t.name, "Bash");
                    assert_eq!(t.input.get_str("command").unwrap(), "git diff main -- src/main.rs");
                }
                _ => panic!("expected ToolUseBlock"),
            }
        }
        _ => panic!("expected AssistantMessage"),
    }
}

#[test]
fn test_should_parse_exec_turn_completed() {
    let data = ev(r#"{"type": "turn.completed", "usage": {"input_tokens": 100, "output_tokens": 50}}"#);
    let msg = parse_exec_event(&data).unwrap().expect("should parse");
    match msg {
        Message::Result(r) => assert!(r.usage.is_some()),
        _ => panic!("expected ResultMessage"),
    }
}

#[test]
fn test_should_parse_exec_thread_started_snake_case() {
    let data = ev(r#"{"type": "thread.started", "thread_id": "019c7fd5"}"#);
    let msg = parse_exec_event(&data).unwrap().expect("should parse");
    match msg {
        Message::System(s) => {
            assert_eq!(s.subtype, "init");
            assert_eq!(s.data.get_str("threadId").unwrap(), "019c7fd5");
        }
        _ => panic!("expected SystemMessage"),
    }
}

#[test]
fn test_should_parse_exec_error_event() {
    let data = ev(r#"{"type": "error", "message": "Model not supported"}"#);
    let msg = parse_exec_event(&data).unwrap().expect("should parse");
    match msg {
        Message::System(s) => {
            assert_eq!(s.subtype, "error");
            assert_eq!(s.data.get_str("message").unwrap(), "Model not supported");
        }
        _ => panic!("expected SystemMessage"),
    }
}

#[test]
fn test_should_parse_exec_turn_failed_event() {
    let data = ev(r#"{"type": "turn.failed", "error": {"message": "The model is not supported"}}"#);
    let msg = parse_exec_event(&data).unwrap().expect("should parse");
    match msg {
        Message::System(s) => {
            assert_eq!(s.subtype, "error");
            assert_eq!(s.data.get_str("message").unwrap(), "The model is not supported");
        }
        _ => panic!("expected SystemMessage"),
    }
}

#[test]
fn test_should_return_none_for_unknown_exec_event() {
    let data = ev(r#"{"type": "some.unknown.event"}"#);
    assert!(parse_exec_event(&data).unwrap().is_none());
}

#[test]
fn test_should_build_exec_command_basic() {
    let options = AgentOptions::default();
    let cmd = build_exec_command("/usr/bin/codex", "hello world", &options);
    assert_eq!(cmd[0], "/usr/bin/codex");
    assert_eq!(cmd[1], "exec");
    assert_eq!(cmd[2], "--json");
    assert_eq!(cmd.last().unwrap(), "hello world");
}

#[test]
fn test_should_build_exec_command_with_model() {
    let options = AgentOptionsBuilder::new().model("o4-mini".to_string()).build();
    let cmd = build_exec_command("/usr/bin/codex", "test", &options);
    assert!(cmd.contains(&"--model".to_string()));
    assert!(cmd.contains(&"o4-mini".to_string()));
}

#[test]
fn test_should_build_exec_command_with_codex_options() {
    let options = AgentOptionsBuilder::new()
        .codex(CodexOptions {
            approval_policy: Some("full-auto".to_string()),
            sandbox_mode: Some("danger-full-access".to_string()),
        })
        .build();
    let cmd = build_exec_command("/usr/bin/codex", "test", &options);
    assert!(cmd.contains(&"-c".to_string()));
    assert!(cmd.iter().any(|s| s.contains("approval_policy")));
    assert!(cmd.iter().any(|s| s.contains("sandbox_permissions")));
}
