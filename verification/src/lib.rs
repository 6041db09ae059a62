//! Client library for driving interactive coding-agent command-line tools.
//!
//! Three backends with incompatible wire protocols are normalised into one
//! typed message model: a persistent JSON-line control protocol, a JSON-RPC
//! 2.0 app-server, and a spawn-per-turn CLI. This crate holds the verified
//! core: the message model, the three protocol codecs, the command and
//! request builders, the session state machines, and the capability-gated
//! client facade. Process spawning and asynchronous I/O live outside it.

pub mod backend;
pub mod client;
pub mod codex;
pub mod control;
pub mod cursor;
pub mod error;
pub mod json;
pub mod jsontext;
pub mod options;
pub mod session;
pub mod text;
pub mod types;

pub use backend::{
    backend_name, BackendKind, Capabilities, ControlBackend, CodexBackend, CursorBackend,
};
pub use control::message_parser::parse_message;
pub use error::Error;
pub use error::Result;
pub use json::Json;
pub use json::JsonNum;
pub use options::{
    AgentDefinition, AgentModel, AgentOptions, AgentOptionsBuilder, AssistantMessageError, CodexOptions, CursorOptions,
    Effort, HookContext, HookEvent, HookJSONOutput, HookMatcher, McpHttpConfig, McpSdkConfig,
    McpServerConfig, McpServersConfig, McpSseConfig, McpStdioConfig, PermissionMode,
    PermissionResult, PermissionResultAllow, PermissionResultDeny, PermissionRuleValue,
    PermissionUpdate, SandboxIgnoreViolations, SandboxNetworkConfig, SandboxSettings, SdkBeta,
    SdkMcpTool, SdkPluginConfig, SettingSource, SystemPromptConfig, ThinkingConfig,
    ToolPermissionContext, ToolsConfig,
};
pub use types::{
    AssistantMessage, ContentBlock, Message, ResultMessage, StreamEvent, SystemMessage, TextBlock,
    ThinkingBlock, ToolResultBlock, ToolUseBlock, UserContent, UserMessage,
};

use vstd::prelude::*;

verus! {

/// Which backends are reachable on this machine: the kind and the resolved
/// binary path, as the runtime layer's discovery reports them.
#[derive(Debug, Clone)]
pub struct AvailableBackend {
    pub kind: BackendKind,
    pub cli_path: String,
}

/// Build options aimed at one available backend: its kind and binary path,
/// with that backend's safe defaults.
pub fn options_for_backend(backend: &AvailableBackend) -> (r: AgentOptions)
    ensures
        r.backend == Some(backend.kind),
        r.cli_path matches Some(p) && p@ == backend.cli_path@,
        backend.kind is Codex ==> (r.codex matches Some(c) && (c.approval_policy matches Some(a)
            && a@ == "full-auto"@) && (c.sandbox_mode matches Some(s) && s@ == "read-only"@)),
        backend.kind is Cursor ==> (r.cursor matches Some(c) && c.force_approve
            && c.trust_workspace && c.mode is None),
{
    let mut builder = AgentOptions::builder().backend(backend.kind).cli_path(
        backend.cli_path.clone(),
    );
    match backend.kind {
        BackendKind::Codex => {
            builder = builder.codex(
                CodexOptions {
                    approval_policy: Some(String::from_str("full-auto")),
                    sandbox_mode: Some(String::from_str("read-only")),
                },
            );
        },
        BackendKind::Cursor => {
            builder = builder.cursor(
                CursorOptions { force_approve: true, mode: None, trust_workspace: true },
            );
        },
        BackendKind::Control => {},
    }
    builder.build()
}

/// An in-process tool definition; its handler is registered with the
/// runtime layer under the same name.
pub fn sdk_mcp_tool(name: &str, description: &str, input_schema: Json) -> (r: SdkMcpTool)
    ensures
        r.name@ == name@,
        r.description@ == description@,
        r.input_schema.jv() == input_schema.jv(),
{
    SdkMcpTool {
        name: String::from_str(name),
        description: String::from_str(description),
        input_schema,
    }
}

/// An in-process tool-server configuration with the given tools.
pub fn create_sdk_mcp_server(name: &str, version: &str, tools: Vec<SdkMcpTool>) -> (r: McpSdkConfig)
    ensures
        r.name@ == name@,
        r.version@ == version@,
        r.tools == tools,
{
    McpSdkConfig { name: String::from_str(name), version: String::from_str(version), tools }
}

/// The entry point behind one-shot queries: the runtime layer drives the
/// persistent backend's transport through this crate's control protocol.
#[derive(Debug)]
pub struct InternalClient {
}

impl InternalClient {
    /// A fresh internal client.
    pub fn new() -> (r: Self) {
        InternalClient {}
    }
}

impl Default for InternalClient {
    /// Same as [`InternalClient::new`].
    fn default() -> Self {
        InternalClient::new()
    }
}

} // verus!
