//! Cross-module tests: a whole parsed exchange, and control-protocol
//! payload shapes.

use code_agent_sdk::codex::exec_transport::exec_completion_message;
use code_agent_sdk::control::protocol::{
    build_hooks_config, build_init_payload, format_control_error, hook_output_to_json,
    hooks_within_id_space, mcp_request_response, permission_result_to_response, McpOutcome,
};
use code_agent_sdk::{AgentOptionsBuilder, HookEvent, HookMatcher, JsonNum as Num, Message};
use code_agent_sdk::control::message_parser::parse_message;
use code_agent_sdk::jsontext::{json_to_string, parse_json};
use code_agent_sdk::{
    ContentBlock, HookJSONOutput, Json, JsonNum, PermissionResult, PermissionResultAllow,
    PermissionResultDeny, PermissionRuleValue, PermissionUpdate,
};

fn ev(s: &str) -> Json {
    parse_json(s).expect("test event must be valid JSON")
}

#[test]
fn test_simple_query_response_types() {
    let assistant_data = ev(
        r#"{"type": "assistant", "message": {"role": "assistant",
            "content": [{"type": "text", "text": "2 + 2 equals 4"}],
            "model": "opus-4-1-20250805"}}"#,
    );
    let msg = parse_message(&assistant_data).unwrap().expect("should parse");
    match &msg {
        Message::Assistant(a) => {
            assert_eq!(a.content.len(), 1);
            match &a.content[0] {
                ContentBlock::Text(t) => assert_eq!(t.text, "2 + 2 equals 4"),
                _ => panic!("expected TextBlock"),
            }
        }
        _ => panic!("expected AssistantMessage"),
    }

    let result_data = ev(
        r#"{"type": "result", "subtype": "success", "duration_ms": 1000,
            "duration_api_ms": 800, "is_error": false, "num_turns": 1,
            "session_id": "test-session", "total_cost_usd": 0.001}"#,
    );
    let msg = parse_message(&result_data).unwrap().expect("should parse");
    match &msg {
        Message::Result(r) => {
            assert!(matches!(&r.total_cost_usd, Some(JsonNum::Dec(c)) if c == "0.001"));
            assert_eq!(r.session_id, "test-session");
        }
        _ => panic!("expected ResultMessage"),
    }
}

#[test]
fn test_permission_update_wire_form() {
    let update = PermissionUpdate {
        type_: "addRules".to_string(),
        rules: Some(vec![PermissionRuleValue {
            tool_name: "Bash".to_string(),
            rule_content: Some("ls *".to_string()),
        }]),
        behavior: Some("allow".to_string()),
        mode: None,
        directories: None,
        destination: Some("session".to_string()),
    };
    let v = update.to_control_protocol_value();
    assert_eq!(
        json_to_string(&v),
        r#"{"type":"addRules","destination":"session","rules":[{"toolName":"Bash","ruleContent":"ls *"}],"behavior":"allow"}"#
    );

    let set_mode = PermissionUpdate {
        type_: "setMode".to_string(),
        rules: None,
        behavior: None,
        mode: Some("plan".to_string()),
        directories: None,
        destination: None,
    };
    assert_eq!(json_to_string(&set_mode.to_control_protocol_value()), r#"{"type":"setMode","mode":"plan"}"#);
}

#[test]
fn test_permission_result_responses() {
    let allow = PermissionResult::Allow(PermissionResultAllow {
        updated_input: None,
        updated_permissions: None,
    });
    let original = ev(r#"{"command": "ls"}"#);
    let resp = permission_result_to_response(&allow, original);
    assert_eq!(resp.get_str("behavior").unwrap(), "allow");
    assert_eq!(resp.get("updatedInput").unwrap().get_str("command").unwrap(), "ls");

    let deny = PermissionResult::Deny(PermissionResultDeny {
        message: "not allowed".to_string(),
        interrupt: true,
    });
    let resp = permission_result_to_response(&deny, ev("{}"));
    assert_eq!(resp.get_str("behavior").unwrap(), "deny");
    assert_eq!(resp.get_str("message").unwrap(), "not allowed");
    assert_eq!(resp.get_bool("interrupt"), Some(true));
}

#[test]
fn test_hook_output_wire_form() {
    let async_out = HookJSONOutput::Async { async_timeout: Some(30) };
    let v = hook_output_to_json(&async_out);
    assert_eq!(v.get_bool("async"), Some(true));
    assert!(matches!(v.get("asyncTimeout").unwrap(), Json::Num(JsonNum::Int(30))));

    let sync_out = HookJSONOutput::Sync {
        continue_: Some(true),
        suppress_output: None,
        stop_reason: None,
        decision: Some("approve".to_string()),
        system_message: None,
        reason: None,
        hook_specific_output: None,
    };
    let v = hook_output_to_json(&sync_out);
    assert_eq!(v.get_bool("continue"), Some(true));
    assert_eq!(v.get_str("decision").unwrap(), "approve");
}

#[test]
fn test_control_error_wire_form() {
    assert_eq!(
        format_control_error("req_1_0000002a", "callback failed"),
        r#"{"type":"control_response","response":{"subtype":"error","request_id":"req_1_0000002a","error":"callback failed"}}"#
    );
}

#[test]
fn test_hooks_config_wire_form() {
    // Two events; callback identifiers run consecutively across the table.
    let hooks = vec![
        (
            HookEvent::PreToolUse,
            vec![
                HookMatcher { matcher: Some("Bash".to_string()), hooks: 2, timeout: None },
                HookMatcher { matcher: None, hooks: 1, timeout: Some(Num::Int(30)) },
            ],
        ),
        (HookEvent::PostToolUse, vec![]),
        (
            HookEvent::Stop,
            vec![HookMatcher { matcher: None, hooks: 1, timeout: None }],
        ),
    ];
    assert!(hooks_within_id_space(Some(&hooks)));
    let config = build_hooks_config(Some(&hooks));
    let expected = [
        r#"{"PreToolUse":[{"matcher":"Bash","hookCallbackIds":["hook_0","hook_1"]},"#,
        r#"{"matcher":null,"hookCallbackIds":["hook_2"],"timeout":30}],"#,
        r#""Stop":[{"matcher":null,"hookCallbackIds":["hook_3"]}]}"#,
    ]
    .join("");
    assert_eq!(json_to_string(&config), expected);
    // No registered hooks render as null.
    assert!(matches!(build_hooks_config(None), Json::Null));
    assert!(matches!(build_hooks_config(Some(&vec![])), Json::Null));
    let empty_matchers = vec![(HookEvent::PreToolUse, vec![])];
    assert!(matches!(build_hooks_config(Some(&empty_matchers)), Json::Null));
}

#[test]
fn test_init_payload_wire_form() {
    let options = AgentOptionsBuilder::new()
        .hooks(vec![(
            HookEvent::PreToolUse,
            vec![HookMatcher { matcher: None, hooks: 1, timeout: None }],
        )])
        .build();
    let payload = build_init_payload(&options);
    let expected = [
        r#"{"subtype":"initialize","hooks":{"PreToolUse":"#,
        r#"[{"matcher":null,"hookCallbackIds":["hook_0"]}]},"agents":null}"#,
    ]
    .join("");
    assert_eq!(json_to_string(&payload), expected);
    let bare = build_init_payload(&code_agent_sdk::AgentOptions::default());
    assert_eq!(json_to_string(&bare), r#"{"subtype":"initialize","hooks":null,"agents":null}"#);
}

#[test]
fn test_mcp_request_routing() {
    let tool = code_agent_sdk::sdk_mcp_tool(
        "add",
        "Add numbers",
        parse_json(r#"{"type":"object"}"#).unwrap(),
    );
    let server = code_agent_sdk::create_sdk_mcp_server("calc", "2.0.0", vec![tool]);

    let init = mcp_request_response(&server, &ev(r#"{"id": 1, "method": "initialize"}"#)).unwrap();
    match init {
        McpOutcome::Reply(p) => {
            let expected = [
                r#"{"mcp_response":{"jsonrpc":"2.0","id":1,"result":{"protocolVersion":"2024-11-05","#,
                r#""capabilities":{"tools":{}},"serverInfo":{"name":"calc","version":"2.0.0"}}}}"#,
            ]
            .join("");
            assert_eq!(json_to_string(&p), expected);
        }
        _ => panic!("expected an immediate reply"),
    }

    let listing = mcp_request_response(&server, &ev(r#"{"id": 2, "method": "tools/list"}"#)).unwrap();
    match listing {
        McpOutcome::Reply(p) => {
            let expected = [
                r#"{"mcp_response":{"jsonrpc":"2.0","id":2,"result":{"tools":"#,
                r#"[{"name":"add","description":"Add numbers","inputSchema":{"type":"object"}}]}}}"#,
            ]
            .join("");
            assert_eq!(json_to_string(&p), expected);
        }
        _ => panic!("expected an immediate reply"),
    }

    let call = mcp_request_response(
        &server,
        &ev(r#"{"id": 3, "method": "tools/call", "params": {"name": "add", "arguments": {"a": 1}}}"#),
    )
    .unwrap();
    match call {
        McpOutcome::CallTool { name, arguments, id } => {
            assert_eq!(name, "add");
            assert_eq!(arguments.get_u64("a"), Some(1));
            assert_eq!(json_to_string(&id), "3");
        }
        _ => panic!("expected a tool call"),
    }

    let missing = mcp_request_response(
        &server,
        &ev(r#"{"id": 4, "method": "tools/call", "params": {"name": "mul"}}"#),
    )
    .unwrap_err();
    assert_eq!(missing.message(), "Tool 'mul' not found in server 'calc'");

    let unknown = mcp_request_response(&server, &ev(r#"{"id": 5, "method": "prompts/list"}"#))
        .unwrap_err();
    assert_eq!(unknown.message(), "Unsupported MCP method: prompts/list");
}

#[test]
fn test_exec_completion() {
    // A clean exit closes the one-shot stream with the synthetic result.
    match exec_completion_message(0, None) {
        Ok(Message::Result(r)) => {
            assert_eq!(r.subtype, "success");
            assert_eq!(r.num_turns, 1);
            assert!(!r.is_error);
            assert_eq!(r.session_id, "");
        }
        _ => panic!("expected the synthetic success result"),
    }
    // A failure surfaces the code and captured stderr.
    match exec_completion_message(3, Some("model rejected".to_string())) {
        Err(code_agent_sdk::Error::Process { exit_code, stderr }) => {
            assert_eq!(exit_code, 3);
            assert_eq!(stderr.as_deref(), Some("model rejected"));
        }
        _ => panic!("expected a process error"),
    }
}
