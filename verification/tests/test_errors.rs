//! Tests for the error types and their rendered messages.

use code_agent_sdk::jsontext::parse_json;
use code_agent_sdk::Error;

#[test]
fn test_base_error() {
    let error = Error::Other("Something went wrong".to_string());
    assert_eq!(error.message(), "Something went wrong");
}

#[test]
fn test_cli_not_found_error() {
    let error = Error::CliNotFound("agent binary missing".to_string());
    assert!(error.message().contains("CLI not found"));
    assert!(error.message().contains("agent binary missing"));
}

#[test]
fn test_connection_error() {
    let error = Error::Connection("Failed to connect to CLI".to_string());
    assert!(error.message().contains("Failed to connect"));
}

#[test]
fn test_process_error() {
    let error = Error::Process { exit_code: 1, stderr: Some("Command not found".to_string()) };
    let s = error.message();
    assert!(s.contains("Process failed"));
    assert!(s.contains("exit code"));
    assert!(s.contains("1"));
}

#[test]
fn test_json_decode_error() {
    let error = parse_json("{invalid json}").unwrap_err();
    assert!(matches!(error, Error::JsonDecode(_)));
    assert!(error.message().contains("JSON") || error.message().contains("json"));
}

#[test]
fn test_not_connected_error() {
    let error = Error::NotConnected;
    let s = error.message();
    assert!(s.contains("Not connected"));
    assert!(s.contains("connect()"));
}

#[test]
fn test_unsupported_feature_message() {
    let error = Error::UnsupportedFeature {
        feature: "interrupt".to_string(),
        backend: "Cursor".to_string(),
    };
    assert_eq!(error.message(), "Feature 'interrupt' is not supported by the Cursor backend");
}

#[test]
fn test_unsupported_options_message() {
    let error = Error::UnsupportedOptions {
        backend: "Codex".to_string(),
        options: vec!["hooks".to_string(), "plugins".to_string()],
    };
    assert_eq!(error.message(), "Options not supported by Codex backend: hooks, plugins");
}

#[test]
fn test_control_timeout_message() {
    let error = Error::ControlTimeout("initialize".to_string());
    assert_eq!(error.message(), "Control request timeout: initialize");
}

#[test]
fn test_message_parse_message() {
    let error = Error::MessageParse("Message missing 'type' field".to_string());
    assert_eq!(error.message(), "Message parse error: Message missing 'type' field");
}
