//! Scenario tests: the session state machines of all three backends, the
//! capability gate, response-stream termination, and option validation.

use code_agent_sdk::backend::{BackendKind, CodexBackend, CursorBackend};
use code_agent_sdk::control::command_builder::build_command;
use code_agent_sdk::control::protocol::{
    build_control_request, build_init_payload, build_user_message, classify_line,
    match_control_response, ControlState, LineClass,
};
use code_agent_sdk::control::message_parser::parse_message;
use code_agent_sdk::client::ClientState;
use code_agent_sdk::codex::app_server::{CodexHandshake, HandshakeAction};
use code_agent_sdk::codex::message_parser::parse_app_server_notification;
use code_agent_sdk::cursor::message_parser::parse_cursor_event;
use code_agent_sdk::cursor::session::CursorTurnState;
use code_agent_sdk::jsontext::{json_to_string, parse_json};
use code_agent_sdk::session::response_prefix;
use code_agent_sdk::{
    AgentOptions, AgentOptionsBuilder, ContentBlock, Error, Json, Message,
};

fn ev(s: &str) -> Json {
    parse_json(s).expect("test event must be valid JSON")
}

// ── backend A: control protocol ────────────────────────────────────────

#[test]
fn test_control_protocol_turn() {
    // Initialize: the request goes out under a fresh id and its matched
    // response completes the handshake.
    let mut ids = ControlState::new();
    let init_id = ids.next_request_id();
    let init = build_control_request(&init_id, build_init_payload(&AgentOptions::default()));
    assert_eq!(init.get_str("type").unwrap(), "control_request");
    assert_eq!(init.get_str("request_id").unwrap(), &init_id);

    let response_line = ev(&format!(
        r#"{{"type": "control_response", "response": {{"subtype": "success",
            "request_id": "{}", "response": {{"commands": []}}}}}}"#,
        init_id
    ));
    assert!(matches!(classify_line(&response_line), LineClass::Data));
    let matched = match_control_response(&response_line, &init_id);
    assert!(matches!(matched, Some(Ok(_))));
    // A response for some other id leaves the caller waiting.
    assert!(match_control_response(&response_line, "req_9_00000000").is_none());

    // The user message for "2+2" has the exact wire shape.
    let user = build_user_message("2+2", "");
    assert_eq!(
        json_to_string(&user),
        r#"{"type":"user","session_id":"","message":{"role":"user","content":"2+2"},"parent_tool_use_id":null}"#
    );

    // The backend answers with an assistant message and one result.
    let lines = [
        r#"{"type": "assistant", "message": {"content": [{"type": "text", "text": "4"}], "model": "m-1"}}"#,
        r#"{"type": "result", "subtype": "success", "duration_ms": 7, "duration_api_ms": 5,
            "is_error": false, "num_turns": 1, "session_id": "s-1"}"#,
        r#"{"type": "assistant", "message": {"content": [{"type": "text", "text": "late"}], "model": "m-1"}}"#,
    ];
    let mut msgs: Vec<Message> = Vec::new();
    for line in lines {
        let data = ev(line);
        assert!(matches!(classify_line(&data), LineClass::Data));
        if let Some(m) = parse_message(&data).unwrap() {
            msgs.push(m);
        }
    }
    let turn = response_prefix(&msgs);
    assert_eq!(turn.len(), 2);
    match &turn[0] {
        Message::Assistant(a) => match &a.content[0] {
            ContentBlock::Text(t) => assert!(t.text.contains("4")),
            _ => panic!("expected TextBlock"),
        },
        _ => panic!("expected AssistantMessage"),
    }
    assert!(matches!(&turn[1], Message::Result(_)));
    // Exactly one result, and nothing after it.
    assert_eq!(turn.iter().filter(|m| matches!(m, Message::Result(_))).count(), 1);
}

#[test]
fn test_control_stream_end_and_error_lines() {
    assert!(matches!(classify_line(&ev(r#"{"type": "end"}"#)), LineClass::End));
    match classify_line(&ev(r#"{"type": "error", "error": "boom"}"#)) {
        LineClass::ErrorLine(m) => assert_eq!(m, "boom"),
        _ => panic!("expected ErrorLine"),
    }
    match classify_line(&ev(r#"{"type": "error"}"#)) {
        LineClass::ErrorLine(m) => assert_eq!(m, "Unknown"),
        _ => panic!("expected ErrorLine"),
    }
    assert!(matches!(
        classify_line(&ev(r#"{"type": "control_cancel_request"}"#)),
        LineClass::ControlCancel
    ));
}

#[test]
fn test_request_ids_are_unique_and_stamped() {
    let mut ids = ControlState::new();
    let a = ids.next_request_id();
    let b = ids.next_request_id();
    assert_ne!(a, b);
    assert!(a.starts_with("req_0_"));
    assert!(b.starts_with("req_1_"));
    assert_eq!(a.len(), "req_0_".len() + 8);
}

// ── backend B: app-server handshake ────────────────────────────────────

#[test]
fn test_codex_handshake_yields_thread_id_then_one_result() {
    let (mut hs, init_req) = CodexHandshake::new();
    let init_id = init_req.get_u64("id").unwrap();
    assert_eq!(init_req.get_str("method").unwrap(), "initialize");

    // An unrelated notification does not advance the handshake.
    let unrelated = ev(r#"{"jsonrpc": "2.0", "method": "thread/started", "params": {}}"#);
    assert!(matches!(hs.on_message(&unrelated), HandshakeAction::Wait));

    // The matched initialize response triggers `initialized` + `thread/start`.
    let init_resp = ev(&format!(r#"{{"jsonrpc": "2.0", "id": {}, "result": {{}}}}"#, init_id));
    let thread_req_id = match hs.on_message(&init_resp) {
        HandshakeAction::Send(out) => {
            assert_eq!(out.len(), 2);
            assert_eq!(out[0].get_str("method").unwrap(), "initialized");
            assert!(out[0].get("id").is_none());
            assert_eq!(out[1].get_str("method").unwrap(), "thread/start");
            out[1].get_u64("id").unwrap()
        }
        _ => panic!("expected the follow-up sends"),
    };

    // The matched thread/start response captures a non-empty thread id
    // before any turn is attempted.
    let thread_resp = ev(&format!(
        r#"{{"jsonrpc": "2.0", "id": {}, "result": {{"threadId": "t-1"}}}}"#,
        thread_req_id
    ));
    assert!(matches!(hs.on_message(&thread_resp), HandshakeAction::Done));
    assert_eq!(hs.thread_id().unwrap(), "t-1");
    assert!(!hs.thread_id().unwrap().is_empty());

    // turn/start goes out against the captured thread.
    let turn_req = hs.start_turn("2+2").unwrap();
    assert_eq!(turn_req.get_str("method").unwrap(), "turn/start");
    let params = turn_req.get("params").unwrap();
    assert_eq!(params.get_str("threadId").unwrap(), "t-1");

    // turn/completed maps to exactly one result carrying the thread id.
    let done = parse_app_server_notification("turn/completed", &ev(r#"{"threadId": "t-1"}"#))
        .unwrap()
        .expect("should parse");
    let turn = response_prefix(&vec![done]);
    assert_eq!(turn.len(), 1);
    match &turn[0] {
        Message::Result(r) => assert_eq!(r.session_id, "t-1"),
        _ => panic!("expected ResultMessage"),
    }
}

#[test]
fn test_codex_control_requests() {
    let (mut hs, init_req) = CodexHandshake::new();
    let init_id = init_req.get_u64("id").unwrap();
    // Before a thread exists, a turn is refused.
    assert!(matches!(hs.start_turn("hi"), Err(Error::Other(_))));
    let init_resp = ev(&format!(r#"{{"jsonrpc": "2.0", "id": {}, "result": {{}}}}"#, init_id));
    let thread_req_id = match hs.on_message(&init_resp) {
        HandshakeAction::Send(out) => out[1].get_u64("id").unwrap(),
        _ => panic!("expected sends"),
    };
    let thread_resp = ev(&format!(
        r#"{{"jsonrpc": "2.0", "id": {}, "result": {{"threadId": "t-2"}}}}"#,
        thread_req_id
    ));
    hs.on_message(&thread_resp);

    // Only interrupt is supported over this protocol.
    let req = hs.control_request(&ev(r#"{"subtype": "interrupt"}"#)).unwrap();
    assert_eq!(req.get_str("method").unwrap(), "turn/interrupt");
    let err = hs.control_request(&ev(r#"{"subtype": "set_model"}"#)).unwrap_err();
    match err {
        Error::UnsupportedFeature { feature, backend } => {
            assert_eq!(feature, "control request 'set_model'");
            assert_eq!(backend, "Codex");
        }
        _ => panic!("expected UnsupportedFeature"),
    }
}

// ── backend C: spawn-per-turn ──────────────────────────────────────────

#[test]
fn test_cursor_resume_uses_observed_chat_id() {
    let options = AgentOptionsBuilder::new().model("gpt-5".to_string()).build();
    let mut st = CursorTurnState::new();

    // First turn: no resume flag yet.
    let args1 = st.begin_turn("hello", &options).unwrap();
    assert!(!args1.contains(&"--resume".to_string()));
    assert_eq!(args1.last().unwrap(), "hello");

    // The first turn emits a system init event carrying a chat id.
    st.observe_event(&ev(r#"{"type": "system", "subtype": "init", "chatId": "abc-123"}"#));
    assert_eq!(st.chat_id().unwrap(), "abc-123");
    // A later event never replaces the captured id.
    st.observe_event(&ev(r#"{"type": "result", "session_id": "other-id"}"#));
    assert_eq!(st.chat_id().unwrap(), "abc-123");
    st.turn_finished();

    // The second turn resumes with exactly that id.
    let args2 = st.begin_turn("again", &options).unwrap();
    let at = args2.iter().position(|a| a == "--resume").expect("resume flag");
    assert_eq!(args2[at + 1], "abc-123");
}

#[test]
fn test_cursor_second_turn_without_id_fails() {
    let options = AgentOptions::default();
    let mut st = CursorTurnState::new();
    let _ = st.begin_turn("first", &options).unwrap();

    // While the first turn still runs, another is refused.
    match st.begin_turn("too early", &options) {
        Err(Error::Other(m)) => assert!(m.contains("still running")),
        _ => panic!("expected a running-turn error"),
    }

    // The first turn ends without ever emitting an identifier: the next
    // turn fails rather than proceed without continuity.
    st.turn_finished();
    match st.begin_turn("second", &options) {
        Err(Error::Other(m)) => assert!(m.contains("session id not available")),
        _ => panic!("expected a missing-id error"),
    }
}

// ── capability gating ──────────────────────────────────────────────────

#[test]
fn test_capability_gating() {
    // A backend without interrupt support refuses before any transport
    // could be reached, session or not.
    let mut cursor = ClientState::new(BackendKind::Cursor);
    cursor.set_connected(true);
    match cursor.interrupt() {
        Err(Error::UnsupportedFeature { feature, backend }) => {
            assert_eq!(feature, "interrupt");
            assert_eq!(backend, "Cursor");
        }
        _ => panic!("expected UnsupportedFeature"),
    }
    match cursor.set_model(Some("gpt-5")) {
        Err(Error::UnsupportedFeature { feature, .. }) => assert_eq!(feature, "set_model"),
        _ => panic!("expected UnsupportedFeature"),
    }

    // A capable backend without a session is NotConnected.
    let control = ClientState::new(BackendKind::Control);
    assert!(matches!(control.interrupt(), Err(Error::NotConnected)));

    // A capable, connected backend gets the control request to send.
    let mut control = ClientState::new(BackendKind::Control);
    control.set_connected(true);
    let req = control.interrupt().unwrap();
    assert_eq!(req.get_str("subtype").unwrap(), "interrupt");
    let req = control.set_permission_mode("plan").unwrap();
    assert_eq!(req.get_str("mode").unwrap(), "plan");

    // Interrupt over the app-server protocol is allowed by its table.
    let mut codex = ClientState::new(BackendKind::Codex);
    codex.set_connected(true);
    assert!(codex.interrupt().is_ok());
    assert!(matches!(
        codex.set_permission_mode("plan"),
        Err(Error::UnsupportedFeature { .. })
    ));
}

// ── option validation ──────────────────────────────────────────────────

#[test]
fn test_codex_rejects_unsupported_options() {
    let backend = CodexBackend::new();
    let options = AgentOptionsBuilder::new()
        .system_prompt("nope".to_string())
        .hooks(vec![])
        .build();
    match backend.validate_options(&options) {
        Err(Error::UnsupportedOptions { backend, options }) => {
            assert_eq!(backend, "Codex");
            assert_eq!(options, vec!["system_prompt", "hooks"]);
        }
        _ => panic!("expected UnsupportedOptions"),
    }
    assert!(backend.validate_options(&AgentOptions::default()).is_ok());
}

#[test]
fn test_cursor_rejects_unsupported_options() {
    let backend = CursorBackend::new();
    let options = AgentOptionsBuilder::new()
        .system_prompt("nope".to_string())
        .can_use_tool(true)
        .output_format(parse_json(r#"{"type": "json_schema", "schema": {}}"#).unwrap())
        .build();
    match backend.validate_options(&options) {
        Err(Error::UnsupportedOptions { backend, options }) => {
            assert_eq!(backend, "Cursor");
            assert_eq!(
                options,
                vec!["system_prompt", "can_use_tool", "output_format (structured output)"]
            );
        }
        _ => panic!("expected UnsupportedOptions"),
    }
    assert!(backend.validate_options(&AgentOptions::default()).is_ok());
}

// ── round trips: options into a command, a mock turn back out ──────────

#[test]
fn test_round_trip_control_turn_count() {
    let options = AgentOptionsBuilder::new()
        .model("sonnet-4-5".to_string())
        .max_turns(3)
        .build();
    let cmd = build_command("/usr/local/bin/coder", &options);
    let mt = cmd.iter().position(|a| a == "--max-turns").expect("max turns flag");
    assert_eq!(cmd[mt + 1], "3");
    // A conforming backend finishes the session at the configured turn.
    let result_line = format!(
        r#"{{"type": "result", "subtype": "success", "duration_ms": 1, "duration_api_ms": 1,
            "is_error": false, "num_turns": {}, "session_id": "s"}}"#,
        3
    );
    let msg = parse_message(&ev(&result_line)).unwrap().expect("should parse");
    match msg {
        Message::Result(r) => assert_eq!(r.num_turns, 3),
        _ => panic!("expected ResultMessage"),
    }
}

#[test]
fn test_round_trip_cursor_turn_count() {
    let options = AgentOptionsBuilder::new().model("gpt-5".to_string()).build();
    let mut st = CursorTurnState::new();
    let args = st.begin_turn("go", &options).unwrap();
    assert!(args.contains(&"--model".to_string()));
    let msg = parse_cursor_event(&ev(
        r#"{"type": "result", "subtype": "success", "num_turns": 2, "session_id": "c-1"}"#,
    ))
    .unwrap()
    .expect("should parse");
    match msg {
        Message::Result(r) => assert_eq!(r.num_turns, 2),
        _ => panic!("expected ResultMessage"),
    }
}
