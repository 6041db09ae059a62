//! Tests for transport configuration and the command builder.

use code_agent_sdk::control::command_builder::build_command;
use code_agent_sdk::{AgentOptions, AgentOptionsBuilder, PermissionMode};

fn make_options(cli_path: &str) -> AgentOptions {
    AgentOptions::builder().cli_path(cli_path.to_string()).build()
}

#[test]
fn test_options_with_cwd() {
    let options = AgentOptions::builder()
        .cli_path("/usr/local/bin/coder".to_string())
        .cwd("/custom/path".to_string())
        .build();
    assert_eq!(options.cli_path.as_deref(), Some("/usr/local/bin/coder"));
    assert_eq!(options.cwd.as_deref(), Some("/custom/path"));
}

#[test]
fn test_cli_path_accepts_pathbuf() {
    let path = "/usr/local/bin/coder".to_string();
    let options = AgentOptions::builder().cli_path(path.clone()).build();
    assert_eq!(options.cli_path.as_ref(), Some(&path));
}

#[test]
fn test_build_command_options_structure() {
    let options = make_options("/usr/local/bin/coder");
    assert_eq!(options.cli_path.as_deref(), Some("/usr/local/bin/coder"));
    assert!(options.allowed_tools.is_empty());
    assert!(options.system_prompt.is_none());
}

#[test]
fn test_options_with_all_transport_params() {
    let options = AgentOptionsBuilder::new()
        .cli_path("/usr/local/bin/coder".to_string())
        .cwd("/project".to_string())
        .system_prompt("Be helpful".to_string())
        .allowed_tools(vec!["Read".to_string(), "Write".to_string()])
        .disallowed_tools(vec!["Bash".to_string()])
        .model("sonnet-4-5".to_string())
        .permission_mode(PermissionMode::from_label("acceptEdits"))
        .max_turns(5)
        .build();

    assert_eq!(options.allowed_tools, vec!["Read", "Write"]);
    assert_eq!(options.disallowed_tools, vec!["Bash"]);
    assert_eq!(options.model.as_deref(), Some("sonnet-4-5"));
    assert_eq!(options.permission_mode, Some(PermissionMode::AcceptEdits));
    assert_eq!(options.max_turns, Some(5));
}

#[test]
fn test_build_command_basic_shape() {
    let options = AgentOptions::default();
    let cmd = build_command("/usr/local/bin/coder", &options);
    assert_eq!(cmd[0], "/usr/local/bin/coder");
    assert_eq!(cmd[1], "--output-format");
    assert_eq!(cmd[2], "stream-json");
    assert_eq!(cmd[3], "--verbose");
    // An unset system prompt is sent explicitly empty.
    assert_eq!(cmd[4], "--system-prompt");
    assert_eq!(cmd[5], "");
    // The input format closes the command.
    assert_eq!(cmd[cmd.len() - 2], "--input-format");
    assert_eq!(cmd[cmd.len() - 1], "stream-json");
}

#[test]
fn test_build_command_renders_options() {
    let options = AgentOptionsBuilder::new()
        .system_prompt("Be helpful".to_string())
        .allowed_tools(vec!["Read".to_string(), "Write".to_string()])
        .model("sonnet-4-5".to_string())
        .permission_mode(PermissionMode::AcceptEdits)
        .max_turns(5)
        .continue_conversation(true)
        .resume("sess-9".to_string())
        .build();
    let cmd = build_command("/usr/local/bin/coder", &options);
    let find = |flag: &str| -> Option<usize> { cmd.iter().position(|a| a == flag) };
    let sp = find("--system-prompt").expect("system prompt flag");
    assert_eq!(cmd[sp + 1], "Be helpful");
    let at = find("--allowedTools").expect("allowed tools flag");
    assert_eq!(cmd[at + 1], "Read,Write");
    let mt = find("--max-turns").expect("max turns flag");
    assert_eq!(cmd[mt + 1], "5");
    let m = find("--model").expect("model flag");
    assert_eq!(cmd[m + 1], "sonnet-4-5");
    let pm = find("--permission-mode").expect("permission mode flag");
    assert_eq!(cmd[pm + 1], "acceptEdits");
    assert!(find("--continue").is_some());
    let rs = find("--resume").expect("resume flag");
    assert_eq!(cmd[rs + 1], "sess-9");
}
