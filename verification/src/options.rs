//! Configuration vocabulary shared by all backends.
//!
//! Enumerations carry their wire spelling through `label`, and are read back
//! from the wire with `from_label`, which falls back to a defined default for
//! unknown spellings, exactly as each protocol tolerates them.

use vstd::prelude::*;

use crate::json::{Json, JsonNum, JsonV};
use crate::json::str_eq;

verus! {

/// Permission modes for tool execution control.
#[derive(Debug, Clone, Copy, PartialEq, Eq, Structural)]
pub enum PermissionMode {
    Default,
    AcceptEdits,
    Plan,
    BypassPermissions,
}

/// The wire spelling of a permission mode.
pub open spec fn permission_mode_label(m: PermissionMode) -> Seq<char> {
    match m {
        PermissionMode::Default => "default"@,
        PermissionMode::AcceptEdits => "acceptEdits"@,
        PermissionMode::Plan => "plan"@,
        PermissionMode::BypassPermissions => "bypassPermissions"@,
    }
}

/// The permission mode a wire spelling denotes; unknown spellings mean
/// `Default`.
pub open spec fn permission_mode_of(s: Seq<char>) -> PermissionMode {
    if s == "acceptEdits"@ {
        PermissionMode::AcceptEdits
    } else if s == "plan"@ {
        PermissionMode::Plan
    } else if s == "bypassPermissions"@ {
        PermissionMode::BypassPermissions
    } else {
        PermissionMode::Default
    }
}

impl PermissionMode {
    /// The wire spelling of this mode.
    pub fn label(&self) -> (r: &'static str)
        ensures
            r@ == permission_mode_label(*self),
    {
        match self {
            PermissionMode::Default => "default",
            PermissionMode::AcceptEdits => "acceptEdits",
            PermissionMode::Plan => "plan",
            PermissionMode::BypassPermissions => "bypassPermissions",
        }
    }

    /// The mode a wire spelling denotes.
    pub fn from_label(s: &str) -> (r: Self)
        ensures
            r == permission_mode_of(s@),
    {
        if str_eq(s, "acceptEdits") {
            PermissionMode::AcceptEdits
        } else if str_eq(s, "plan") {
            PermissionMode::Plan
        } else if str_eq(s, "bypassPermissions") {
            PermissionMode::BypassPermissions
        } else {
            PermissionMode::Default
        }
    }
}

/// Effort level for thinking depth.
#[derive(Debug, Clone, Copy, PartialEq, Eq, Structural)]
pub enum Effort {
    Low,
    Medium,
    High,
    Max,
}

/// The effort level a wire spelling denotes; unknown spellings mean
/// `Medium`.
pub open spec fn effort_of(s: Seq<char>) -> Effort {
    if s == "low"@ {
        Effort::Low
    } else if s == "high"@ {
        Effort::High
    } else if s == "max"@ {
        Effort::Max
    } else {
        Effort::Medium
    }
}

/// The wire spelling of an effort level.
pub open spec fn effort_label(e: Effort) -> Seq<char> {
    match e {
        Effort::Low => "low"@,
        Effort::Medium => "medium"@,
        Effort::High => "high"@,
        Effort::Max => "max"@,
    }
}

impl Effort {
    /// The wire spelling of this effort level.
    pub fn label(&self) -> (r: &'static str)
        ensures
            r@ == effort_label(*self),
    {
        match self {
            Effort::Low => "low",
            Effort::Medium => "medium",
            Effort::High => "high",
            Effort::Max => "max",
        }
    }

    /// The effort level a wire spelling denotes.
    pub fn from_label(s: &str) -> (r: Self)
        ensures
            r == effort_of(s@),
    {
        if str_eq(s, "low") {
            Effort::Low
        } else if str_eq(s, "high") {
            Effort::High
        } else if str_eq(s, "max") {
            Effort::Max
        } else {
            Effort::Medium
        }
    }
}

/// SDK beta features.
#[derive(Debug, Clone)]
pub enum SdkBeta {
    /// The large-context beta.
    Context1M,
    /// Any beta feature not yet enumerated here.
    Other(String),
}

/// The wire spelling of a beta feature.
pub open spec fn sdk_beta_label(b: SdkBeta) -> Seq<char> {
    match b {
        SdkBeta::Context1M => "context-1m-2025-08-07"@,
        SdkBeta::Other(s) => s@,
    }
}

impl SdkBeta {
    /// The wire spelling of this beta feature.
    pub fn label(&self) -> (r: String)
        ensures
            r@ == sdk_beta_label(*self),
    {
        match self {
            SdkBeta::Context1M => String::from_str("context-1m-2025-08-07"),
            SdkBeta::Other(s) => s.clone(),
        }
    }

    /// The beta feature a wire spelling denotes.
    pub fn from_label(s: &str) -> (r: Self)
        ensures
            s@ == "context-1m-2025-08-07"@ ==> r is Context1M,
            s@ != "context-1m-2025-08-07"@ ==> (r matches SdkBeta::Other(o) && o@ == s@),
    {
        if str_eq(s, "context-1m-2025-08-07") {
            SdkBeta::Context1M
        } else {
            SdkBeta::Other(String::from_str(s))
        }
    }
}

/// Setting source types.
#[derive(Debug, Clone, Copy, PartialEq, Eq, Structural)]
pub enum SettingSource {
    User,
    Project,
    Local,
}

/// The setting source a wire spelling denotes; unknown spellings mean
/// `User`.
pub open spec fn setting_source_of(s: Seq<char>) -> SettingSource {
    if s == "project"@ {
        SettingSource::Project
    } else if s == "local"@ {
        SettingSource::Local
    } else {
        SettingSource::User
    }
}

/// The wire spelling of a setting source.
pub open spec fn setting_source_label(s: SettingSource) -> Seq<char> {
    match s {
        SettingSource::User => "user"@,
        SettingSource::Project => "project"@,
        SettingSource::Local => "local"@,
    }
}

impl SettingSource {
    /// The wire spelling of this setting source.
    pub fn label(&self) -> (r: &'static str)
        ensures
            r@ == setting_source_label(*self),
    {
        match self {
            SettingSource::User => "user",
            SettingSource::Project => "project",
            SettingSource::Local => "local",
        }
    }

    /// The setting source a wire spelling denotes.
    pub fn from_label(s: &str) -> (r: Self)
        ensures
            r == setting_source_of(s@),
    {
        if str_eq(s, "project") {
            SettingSource::Project
        } else if str_eq(s, "local") {
            SettingSource::Local
        } else {
            SettingSource::User
        }
    }
}

/// Agent model selection.
#[derive(Debug, Clone, Copy, PartialEq, Eq, Structural)]
pub enum AgentModel {
    Sonnet,
    Opus,
    Haiku,
    Inherit,
}

/// The model choice a wire spelling denotes; unknown spellings mean
/// `Inherit`.
pub open spec fn agent_model_of(s: Seq<char>) -> AgentModel {
    if s == "sonnet"@ {
        AgentModel::Sonnet
    } else if s == "opus"@ {
        AgentModel::Opus
    } else if s == "haiku"@ {
        AgentModel::Haiku
    } else {
        AgentModel::Inherit
    }
}

/// The wire spelling of an agent model choice.
pub open spec fn agent_model_label(m: AgentModel) -> Seq<char> {
    match m {
        AgentModel::Sonnet => "sonnet"@,
        AgentModel::Opus => "opus"@,
        AgentModel::Haiku => "haiku"@,
        AgentModel::Inherit => "inherit"@,
    }
}

impl AgentModel {
    /// The wire spelling of this model choice.
    pub fn label(&self) -> (r: &'static str)
        ensures
            r@ == agent_model_label(*self),
    {
        match self {
            AgentModel::Sonnet => "sonnet",
            AgentModel::Opus => "opus",
            AgentModel::Haiku => "haiku",
            AgentModel::Inherit => "inherit",
        }
    }

    /// The model choice a wire spelling denotes.
    pub fn from_label(s: &str) -> (r: Self)
        ensures
            r == agent_model_of(s@),
    {
        if str_eq(s, "sonnet") {
            AgentModel::Sonnet
        } else if str_eq(s, "opus") {
            AgentModel::Opus
        } else if str_eq(s, "haiku") {
            AgentModel::Haiku
        } else {
            AgentModel::Inherit
        }
    }
}

/// Hook event types.
#[derive(Debug, Clone, Copy, PartialEq, Eq, Hash, Structural)]
pub enum HookEvent {
    PreToolUse,
    PostToolUse,
    PostToolUseFailure,
    UserPromptSubmit,
    Stop,
    SubagentStop,
    PreCompact,
    Notification,
    SubagentStart,
    PermissionRequest,
}

/// The hook event a wire spelling denotes; unknown spellings mean
/// `PreToolUse`.
pub open spec fn hook_event_of(s: Seq<char>) -> HookEvent {
    if s == "PostToolUse"@ {
        HookEvent::PostToolUse
    } else if s == "PostToolUseFailure"@ {
        HookEvent::PostToolUseFailure
    } else if s == "UserPromptSubmit"@ {
        HookEvent::UserPromptSubmit
    } else if s == "Stop"@ {
        HookEvent::Stop
    } else if s == "SubagentStop"@ {
        HookEvent::SubagentStop
    } else if s == "PreCompact"@ {
        HookEvent::PreCompact
    } else if s == "Notification"@ {
        HookEvent::Notification
    } else if s == "SubagentStart"@ {
        HookEvent::SubagentStart
    } else if s == "PermissionRequest"@ {
        HookEvent::PermissionRequest
    } else {
        HookEvent::PreToolUse
    }
}

/// The wire spelling of a hook event.
pub open spec fn hook_event_label(e: HookEvent) -> Seq<char> {
    match e {
        HookEvent::PreToolUse => "PreToolUse"@,
        HookEvent::PostToolUse => "PostToolUse"@,
        HookEvent::PostToolUseFailure => "PostToolUseFailure"@,
        HookEvent::UserPromptSubmit => "UserPromptSubmit"@,
        HookEvent::Stop => "Stop"@,
        HookEvent::SubagentStop => "SubagentStop"@,
        HookEvent::PreCompact => "PreCompact"@,
        HookEvent::Notification => "Notification"@,
        HookEvent::SubagentStart => "SubagentStart"@,
        HookEvent::PermissionRequest => "PermissionRequest"@,
    }
}

impl HookEvent {
    /// The wire spelling of this hook event.
    pub fn label(&self) -> (r: &'static str)
        ensures
            r@ == hook_event_label(*self),
    {
        match self {
            HookEvent::PreToolUse => "PreToolUse",
            HookEvent::PostToolUse => "PostToolUse",
            HookEvent::PostToolUseFailure => "PostToolUseFailure",
            HookEvent::UserPromptSubmit => "UserPromptSubmit",
            HookEvent::Stop => "Stop",
            HookEvent::SubagentStop => "SubagentStop",
            HookEvent::PreCompact => "PreCompact",
            HookEvent::Notification => "Notification",
            HookEvent::SubagentStart => "SubagentStart",
            HookEvent::PermissionRequest => "PermissionRequest",
        }
    }

    /// The hook event a wire spelling denotes.
    pub fn from_label(s: &str) -> (r: Self)
        ensures
            r == hook_event_of(s@),
    {
        if str_eq(s, "PostToolUse") {
            HookEvent::PostToolUse
        } else if str_eq(s, "PostToolUseFailure") {
            HookEvent::PostToolUseFailure
        } else if str_eq(s, "UserPromptSubmit") {
            HookEvent::UserPromptSubmit
        } else if str_eq(s, "Stop") {
            HookEvent::Stop
        } else if str_eq(s, "SubagentStop") {
            HookEvent::SubagentStop
        } else if str_eq(s, "PreCompact") {
            HookEvent::PreCompact
        } else if str_eq(s, "Notification") {
            HookEvent::Notification
        } else if str_eq(s, "SubagentStart") {
            HookEvent::SubagentStart
        } else if str_eq(s, "PermissionRequest") {
            HookEvent::PermissionRequest
        } else {
            HookEvent::PreToolUse
        }
    }
}

/// Assistant message error types.
#[derive(Debug, Clone, Copy, PartialEq, Eq, Structural)]
pub enum AssistantMessageError {
    AuthenticationFailed,
    BillingError,
    RateLimit,
    InvalidRequest,
    ServerError,
    Unknown,
}

/// The assistant error a wire spelling denotes; unknown spellings mean
/// `Unknown`.
pub open spec fn assistant_error_of(s: Seq<char>) -> AssistantMessageError {
    if s == "authentication_failed"@ {
        AssistantMessageError::AuthenticationFailed
    } else if s == "billing_error"@ {
        AssistantMessageError::BillingError
    } else if s == "rate_limit"@ {
        AssistantMessageError::RateLimit
    } else if s == "invalid_request"@ {
        AssistantMessageError::InvalidRequest
    } else if s == "server_error"@ {
        AssistantMessageError::ServerError
    } else {
        AssistantMessageError::Unknown
    }
}

/// The wire spelling of an assistant error.
pub open spec fn assistant_error_label(e: AssistantMessageError) -> Seq<char> {
    match e {
        AssistantMessageError::AuthenticationFailed => "authentication_failed"@,
        AssistantMessageError::BillingError => "billing_error"@,
        AssistantMessageError::RateLimit => "rate_limit"@,
        AssistantMessageError::InvalidRequest => "invalid_request"@,
        AssistantMessageError::ServerError => "server_error"@,
        AssistantMessageError::Unknown => "unknown"@,
    }
}

impl AssistantMessageError {
    /// The wire spelling of this assistant error.
    pub fn label(&self) -> (r: &'static str)
        ensures
            r@ == assistant_error_label(*self),
    {
        match self {
            AssistantMessageError::AuthenticationFailed => "authentication_failed",
            AssistantMessageError::BillingError => "billing_error",
            AssistantMessageError::RateLimit => "rate_limit",
            AssistantMessageError::InvalidRequest => "invalid_request",
            AssistantMessageError::ServerError => "server_error",
            AssistantMessageError::Unknown => "unknown",
        }
    }

    /// The assistant error a wire spelling denotes.
    pub fn from_label(s: &str) -> (r: Self)
        ensures
            r == assistant_error_of(s@),
    {
        if str_eq(s, "authentication_failed") {
            AssistantMessageError::AuthenticationFailed
        } else if str_eq(s, "billing_error") {
            AssistantMessageError::BillingError
        } else if str_eq(s, "rate_limit") {
            AssistantMessageError::RateLimit
        } else if str_eq(s, "invalid_request") {
            AssistantMessageError::InvalidRequest
        } else if str_eq(s, "server_error") {
            AssistantMessageError::ServerError
        } else {
            AssistantMessageError::Unknown
        }
    }
}

/// Options specific to the app-server backend.
#[derive(Debug, Clone)]
pub struct CodexOptions {
    /// Approval policy: `"auto-edit"`, `"full-auto"`, or `"suggest"`.
    pub approval_policy: Option<String>,
    /// Sandbox mode: `"read-only"`, `"workspace-write"`, or
    /// `"danger-full-access"`.
    pub sandbox_mode: Option<String>,
}

/// Options specific to the spawn-per-turn backend.
#[derive(Debug, Clone)]
pub struct CursorOptions {
    /// Force-approve all tool calls.
    pub force_approve: bool,
    /// Execution mode: `"plan"` or `"ask"`.
    pub mode: Option<String>,
    /// Trust the current workspace without prompting.
    pub trust_workspace: bool,
}

/// Context handed to a tool permission callback.
#[derive(Debug, Clone)]
pub struct ToolPermissionContext {
    pub signal: Option<bool>,
    pub suggestions: Vec<PermissionUpdate>,
}

/// A permission table update, as the control protocol speaks of them.
#[derive(Debug, Clone)]
pub struct PermissionUpdate {
    pub type_: String,
    pub rules: Option<Vec<PermissionRuleValue>>,
    pub behavior: Option<String>,
    pub mode: Option<String>,
    pub directories: Option<Vec<String>>,
    pub destination: Option<String>,
}

/// One rule of a permission update.
#[derive(Debug, Clone)]
pub struct PermissionRuleValue {
    pub tool_name: String,
    pub rule_content: Option<String>,
}

/// A denied tool permission, with its message.
#[derive(Debug, Clone)]
pub struct PermissionResultDeny {
    pub message: String,
    pub interrupt: bool,
}

/// An allowed tool permission, possibly with amended input or permissions.
#[derive(Debug, Clone)]
pub struct PermissionResultAllow {
    pub updated_input: Option<Json>,
    pub updated_permissions: Option<Vec<PermissionUpdate>>,
}

/// The verdict of a tool permission callback.
#[derive(Debug, Clone)]
pub enum PermissionResult {
    Allow(PermissionResultAllow),
    Deny(PermissionResultDeny),
}

/// Context handed to a hook callback.
#[derive(Debug, Clone)]
pub struct HookContext {
    pub signal: Option<bool>,
}

/// What a hook callback returns, serialised back onto the wire.
#[derive(Debug, Clone)]
pub enum HookJSONOutput {
    Async { async_timeout: Option<u64> },
    Sync {
        continue_: Option<bool>,
        suppress_output: Option<bool>,
        stop_reason: Option<String>,
        decision: Option<String>,
        system_message: Option<String>,
        reason: Option<String>,
        hook_specific_output: Option<Json>,
    },
}

/// A matcher with the number of hook callbacks registered under it.
///
/// The callbacks themselves are asynchronous values held by the runtime
/// layer; the protocol core only needs how many there are, to assign them
/// their wire identifiers.
#[derive(Debug, Clone)]
pub struct HookMatcher {
    pub matcher: Option<String>,
    /// How many callbacks are registered under this matcher.
    pub hooks: usize,
    pub timeout: Option<JsonNum>,
}

/// A named agent definition.
#[derive(Debug, Clone)]
pub struct AgentDefinition {
    pub description: String,
    pub prompt: String,
    pub tools: Option<Vec<String>>,
    pub model: Option<AgentModel>,
}

/// Thinking budget configuration.
#[derive(Debug, Clone)]
pub enum ThinkingConfig {
    Adaptive,
    Enabled { budget_tokens: u32 },
    Disabled,
}

/// Sandbox behaviour settings.
#[derive(Debug, Clone)]
pub struct SandboxSettings {
    pub enabled: Option<bool>,
    pub auto_allow_bash_if_sandboxed: Option<bool>,
    pub excluded_commands: Option<Vec<String>>,
    pub allow_unsandboxed_commands: Option<bool>,
    pub network: Option<SandboxNetworkConfig>,
    pub ignore_violations: Option<SandboxIgnoreViolations>,
    pub enable_weaker_nested_sandbox: Option<bool>,
}

/// Sandbox network settings.
#[derive(Debug, Clone)]
pub struct SandboxNetworkConfig {
    pub allow_unix_sockets: Option<Vec<String>>,
    pub allow_all_unix_sockets: Option<bool>,
    pub allow_local_binding: Option<bool>,
    pub http_proxy_port: Option<u16>,
    pub socks_proxy_port: Option<u16>,
}

/// Sandbox violation-reporting exclusions.
#[derive(Debug, Clone)]
pub struct SandboxIgnoreViolations {
    pub file: Option<Vec<String>>,
    pub network: Option<Vec<String>>,
}

/// A tool server spoken to over a child process's standard streams.
#[derive(Debug, Clone)]
pub struct McpStdioConfig {
    pub command: String,
    pub args: Option<Vec<String>>,
    pub env: Option<Vec<(String, String)>>,
}

/// A tool server spoken to over server-sent events.
#[derive(Debug, Clone)]
pub struct McpSseConfig {
    pub url: String,
    pub headers: Option<Vec<(String, String)>>,
}

/// A tool server spoken to over plain HTTP.
#[derive(Debug, Clone)]
pub struct McpHttpConfig {
    pub url: String,
    pub headers: Option<Vec<(String, String)>>,
}

/// An in-process tool definition: name, description, and input schema.
///
/// The handler that executes the tool is an asynchronous value held by the
/// runtime layer, keyed by this definition's name.
#[derive(Debug, Clone)]
pub struct SdkMcpTool {
    pub name: String,
    pub description: String,
    pub input_schema: Json,
}

/// An in-process tool server: routed inside the client, not spawned.
#[derive(Debug, Clone)]
pub struct McpSdkConfig {
    pub name: String,
    pub version: String,
    pub tools: Vec<SdkMcpTool>,
}

/// One tool server configuration.
#[derive(Debug, Clone)]
pub enum McpServerConfig {
    Stdio(McpStdioConfig),
    Sse(McpSseConfig),
    Http(McpHttpConfig),
    Sdk(McpSdkConfig),
}

/// All tool servers: named configurations, or a path to a file of them.
#[derive(Debug, Clone)]
pub enum McpServersConfig {
    Dict(Vec<(String, McpServerConfig)>),
    Path(String),
}

/// A plugin directory registration.
#[derive(Debug, Clone)]
pub struct SdkPluginConfig {
    /// Plugin kind; only `"local"` is understood.
    pub type_: String,
    pub path: String,
}

/// Which tools the backend may use.
#[derive(Debug, Clone)]
pub enum ToolsConfig {
    List(Vec<String>),
    Preset { preset: String },
}

/// The system prompt: given text, or a named preset with an optional suffix.
#[derive(Debug, Clone)]
pub enum SystemPromptConfig {
    Text(String),
    Preset { preset: String, append: Option<String> },
}

/// Configuration for all backends.
///
/// One struct configures every backend; fields a backend does not support
/// are rejected by its `validate_options`. Callbacks (tool permission,
/// hooks, stderr) are asynchronous values held by the runtime layer; here
/// only their presence is recorded, which is what validation and the
/// protocol handshakes depend on.
#[derive(Debug)]
pub struct AgentOptions {
    pub backend: Option<crate::backend::BackendKind>,
    pub tools: Option<ToolsConfig>,
    pub allowed_tools: Vec<String>,
    pub disallowed_tools: Vec<String>,
    pub system_prompt: Option<SystemPromptConfig>,
    pub permission_mode: Option<PermissionMode>,
    pub model: Option<String>,
    pub fallback_model: Option<String>,
    pub max_turns: Option<u32>,
    pub max_budget_usd: Option<JsonNum>,
    pub continue_conversation: bool,
    pub resume: Option<String>,
    pub cwd: Option<String>,
    pub cli_path: Option<String>,
    pub env: Vec<(String, String)>,
    pub extra_args: Vec<(String, Option<String>)>,
    pub add_dirs: Vec<String>,
    pub mcp_servers: Option<McpServersConfig>,
    pub include_partial_messages: bool,
    pub fork_session: bool,
    pub setting_sources: Option<Vec<SettingSource>>,
    pub plugins: Vec<SdkPluginConfig>,
    pub max_thinking_tokens: Option<u32>,
    pub effort: Option<Effort>,
    pub output_format: Option<Json>,
    pub permission_prompt_tool_name: Option<String>,
    pub max_buffer_size: Option<usize>,
    pub enable_file_checkpointing: bool,
    pub betas: Vec<SdkBeta>,
    pub settings: Option<String>,
    pub sandbox: Option<SandboxSettings>,
    pub user: Option<String>,
    pub agents: Option<Vec<(String, AgentDefinition)>>,
    pub thinking: Option<ThinkingConfig>,
    /// Whether a tool permission callback is registered.
    pub can_use_tool: bool,
    pub hooks: Option<Vec<(HookEvent, Vec<HookMatcher>)>>,
    /// Whether a stderr callback is registered.
    pub stderr: bool,
    pub codex: Option<CodexOptions>,
    pub cursor: Option<CursorOptions>,
}

/// Whether an options value has every field at its default.
pub open spec fn is_default_options(o: AgentOptions) -> bool {
    &&& o.backend is None
    &&& o.tools is None
    &&& o.allowed_tools@.len() == 0
    &&& o.disallowed_tools@.len() == 0
    &&& o.system_prompt is None
    &&& o.permission_mode is None
    &&& o.model is None
    &&& o.fallback_model is None
    &&& o.max_turns is None
    &&& o.max_budget_usd is None
    &&& !o.continue_conversation
    &&& o.resume is None
    &&& o.cwd is None
    &&& o.cli_path is None
    &&& o.env@.len() == 0
    &&& o.extra_args@.len() == 0
    &&& o.add_dirs@.len() == 0
    &&& o.mcp_servers is None
    &&& !o.include_partial_messages
    &&& !o.fork_session
    &&& o.setting_sources is None
    &&& o.plugins@.len() == 0
    &&& o.max_thinking_tokens is None
    &&& o.effort is None
    &&& o.output_format is None
    &&& o.permission_prompt_tool_name is None
    &&& o.max_buffer_size is None
    &&& !o.enable_file_checkpointing
    &&& o.betas@.len() == 0
    &&& o.settings is None
    &&& o.sandbox is None
    &&& o.user is None
    &&& o.agents is None
    &&& o.thinking is None
    &&& !o.can_use_tool
    &&& o.hooks is None
    &&& !o.stderr
    &&& o.codex is None
    &&& o.cursor is None
}

impl Default for AgentOptions {
    /// Every field absent, empty, or off.
    fn default() -> (r: Self)
        ensures
            is_default_options(r),
    {
        AgentOptions {
            backend: None,
            tools: None,
            allowed_tools: Vec::new(),
            disallowed_tools: Vec::new(),
            system_prompt: None,
            permission_mode: None,
            model: None,
            fallback_model: None,
            max_turns: None,
            max_budget_usd: None,
            continue_conversation: false,
            resume: None,
            cwd: None,
            cli_path: None,
            env: Vec::new(),
            extra_args: Vec::new(),
            add_dirs: Vec::new(),
            mcp_servers: None,
            include_partial_messages: false,
            fork_session: false,
            setting_sources: None,
            plugins: Vec::new(),
            max_thinking_tokens: None,
            effort: None,
            output_format: None,
            permission_prompt_tool_name: None,
            max_buffer_size: None,
            enable_file_checkpointing: false,
            betas: Vec::new(),
            settings: None,
            sandbox: None,
            user: None,
            agents: None,
            thinking: None,
            can_use_tool: false,
            hooks: None,
            stderr: false,
            codex: None,
            cursor: None,
        }
    }
}

/// The JSON form of one permission rule.
pub open spec fn rule_json_v(r: PermissionRuleValue) -> JsonV {
    JsonV::Obj(
        seq![
            ("toolName"@, JsonV::Str(r.tool_name@)),
            (
                "ruleContent"@,
                match r.rule_content {
                    Some(c) => JsonV::Str(c@),
                    None => JsonV::Null,
                },
            ),
        ],
    )
}

/// The wire fields of a permission update: its type, its destination when
/// set, and then only the fields its type speaks of.
pub open spec fn permission_update_fields_v(u: PermissionUpdate) -> Seq<(Seq<char>, JsonV)> {
    seq![("type"@, JsonV::Str(u.type_@))] + (match u.destination {
        Some(d) => seq![("destination"@, JsonV::Str(d@))],
        None => Seq::empty(),
    }) + (if u.type_@ == "addRules"@ || u.type_@ == "replaceRules"@ || u.type_@
        == "removeRules"@ {
        (match u.rules {
            Some(rules) => seq![
                ("rules"@, JsonV::Arr(rules@.map_values(|r: PermissionRuleValue| rule_json_v(r)))),
            ],
            None => Seq::empty(),
        }) + (match u.behavior {
            Some(b) => seq![("behavior"@, JsonV::Str(b@))],
            None => Seq::empty(),
        })
    } else if u.type_@ == "setMode"@ {
        match u.mode {
            Some(m) => seq![("mode"@, JsonV::Str(m@))],
            None => Seq::empty(),
        }
    } else if u.type_@ == "addDirectories"@ || u.type_@ == "removeDirectories"@ {
        match u.directories {
            Some(ds) => seq![
                ("directories"@, JsonV::Arr(ds@.map_values(|d: String| JsonV::Str(d@)))),
            ],
            None => Seq::empty(),
        }
    } else {
        Seq::empty()
    })
}

impl PermissionUpdate {
    /// This update in the dictionary form the control protocol expects.
    #[verifier::rlimit(100)]
    pub fn to_control_protocol_value(&self) -> (r: Json)
        ensures
            r.jv() == JsonV::Obj(permission_update_fields_v(*self)),
    {
        let mut result: Vec<(String, Json)> = Vec::new();
        result.push((String::from_str("type"), Json::Str(self.type_.clone())));
        if let Some(d) = &self.destination {
            result.push((String::from_str("destination"), Json::Str(d.clone())));
        }
        let t = self.type_.as_str();
        if str_eq(t, "addRules") || str_eq(t, "replaceRules") || str_eq(t, "removeRules") {
            if let Some(rules) = &self.rules {
                let mut arr: Vec<Json> = Vec::new();
                let n = rules.len();
                let mut i: usize = 0;
                #[verifier::loop_isolation(false)]
                while i < n
                    invariant
                        i <= n,
                        arr@.len() == i,
                        forall|j: int| 0 <= j < i ==> arr@[j].jv() == rule_json_v(rules@[j]),
                    decreases n - i,
                {
                    let mut m: Vec<(String, Json)> = Vec::new();
                    m.push((String::from_str("toolName"), Json::Str(rules[i].tool_name.clone())));
                    let content_val = match &rules[i].rule_content {
                        Some(c) => Json::Str(c.clone()),
                        None => Json::Null,
                    };
                    m.push((String::from_str("ruleContent"), content_val));
                    let rule = Json::Obj(m);
                    proof {
                        crate::json::lemma_obj_fields(m);
                        assert(crate::json::obj_fields_v(m@) =~= rule_json_v(rules@[i as int])
                            ->Obj_0);
                        assert(rule.jv() =~= rule_json_v(rules@[i as int]));
                    }
                    arr.push(rule);
                    i += 1;
                }
                let rules_json = Json::Arr(arr);
                proof {
                    assert(rules_json.jv()->Arr_0 =~= rules@.map_values(
                        |r: PermissionRuleValue| rule_json_v(r),
                    ));
                    assert(rules_json.jv() =~= JsonV::Arr(
                        rules@.map_values(|r: PermissionRuleValue| rule_json_v(r)),
                    ));
                }
                result.push((String::from_str("rules"), rules_json));
            }
            if let Some(b) = &self.behavior {
                result.push((String::from_str("behavior"), Json::Str(b.clone())));
            }
        } else if str_eq(t, "setMode") {
            if let Some(m) = &self.mode {
                result.push((String::from_str("mode"), Json::Str(m.clone())));
            }
        } else if str_eq(t, "addDirectories") || str_eq(t, "removeDirectories") {
            if let Some(ds) = &self.directories {
                let mut arr: Vec<Json> = Vec::new();
                let n = ds.len();
                let mut i: usize = 0;
                #[verifier::loop_isolation(false)]
                while i < n
                    invariant
                        i <= n,
                        arr@.len() == i,
                        forall|j: int| 0 <= j < i ==> arr@[j].jv() == JsonV::Str(ds@[j]@),
                    decreases n - i,
                {
                    arr.push(Json::Str(ds[i].clone()));
                    i += 1;
                }
                let dirs_json = Json::Arr(arr);
                proof {
                    assert(dirs_json.jv()->Arr_0 =~= ds@.map_values(|d: String| JsonV::Str(d@)));
                    assert(dirs_json.jv() =~= JsonV::Arr(
                        ds@.map_values(|d: String| JsonV::Str(d@)),
                    ));
                }
                result.push((String::from_str("directories"), dirs_json));
            }
        }
        let r = Json::Obj(result);
        proof {
            crate::json::lemma_obj_fields(result);
            assert(crate::json::obj_fields_v(result@) =~= permission_update_fields_v(*self));
            assert(r.jv() =~= JsonV::Obj(permission_update_fields_v(*self)));
        }
        r
    }
}

/// Builder for [`AgentOptions`]: each setter replaces exactly one field and
/// leaves every other as it was.
#[derive(Debug)]
pub struct AgentOptionsBuilder {
    pub options: AgentOptions,
}

impl AgentOptionsBuilder {
    /// A builder over default options.
    pub fn new() -> (r: Self)
        ensures
            is_default_options(r.options),
    {
        AgentOptionsBuilder { options: AgentOptions::default() }
    }

    /// The built options.
    pub fn build(self) -> (r: AgentOptions)
        ensures
            r == self.options,
    {
        self.options
    }

    pub fn backend(self, kind: crate::backend::BackendKind) -> (r: Self)
        ensures
            r.options == (AgentOptions { backend: Some(kind), ..self.options }),
    {
        let mut b = self;
        b.options.backend = Some(kind);
        b
    }

    pub fn tools(self, tools: ToolsConfig) -> (r: Self)
        ensures
            r.options == (AgentOptions { tools: Some(tools), ..self.options }),
    {
        let mut b = self;
        b.options.tools = Some(tools);
        b
    }

    pub fn system_prompt(self, prompt: String) -> (r: Self)
        ensures
            r.options == (AgentOptions { system_prompt: Some(SystemPromptConfig::Text(prompt)), ..self.options }),
    {
        let mut b = self;
        b.options.system_prompt = Some(SystemPromptConfig::Text(prompt));
        b
    }

    pub fn permission_mode(self, mode: PermissionMode) -> (r: Self)
        ensures
            r.options == (AgentOptions { permission_mode: Some(mode), ..self.options }),
    {
        let mut b = self;
        b.options.permission_mode = Some(mode);
        b
    }

    pub fn model(self, model: String) -> (r: Self)
        ensures
            r.options == (AgentOptions { model: Some(model), ..self.options }),
    {
        let mut b = self;
        b.options.model = Some(model);
        b
    }

    pub fn fallback_model(self, model: String) -> (r: Self)
        ensures
            r.options == (AgentOptions { fallback_model: Some(model), ..self.options }),
    {
        let mut b = self;
        b.options.fallback_model = Some(model);
        b
    }

    pub fn max_turns(self, turns: u32) -> (r: Self)
        ensures
            r.options == (AgentOptions { max_turns: Some(turns), ..self.options }),
    {
        let mut b = self;
        b.options.max_turns = Some(turns);
        b
    }

    pub fn max_budget_usd(self, budget: JsonNum) -> (r: Self)
        ensures
            r.options == (AgentOptions { max_budget_usd: Some(budget), ..self.options }),
    {
        let mut b = self;
        b.options.max_budget_usd = Some(budget);
        b
    }

    pub fn continue_conversation(self, continue_conversation: bool) -> (r: Self)
        ensures
            r.options == (AgentOptions { continue_conversation: continue_conversation, ..self.options }),
    {
        let mut b = self;
        b.options.continue_conversation = continue_conversation;
        b
    }

    pub fn resume(self, session_id: String) -> (r: Self)
        ensures
            r.options == (AgentOptions { resume: Some(session_id), ..self.options }),
    {
        let mut b = self;
        b.options.resume = Some(session_id);
        b
    }

    pub fn cwd(self, path: String) -> (r: Self)
        ensures
            r.options == (AgentOptions { cwd: Some(path), ..self.options }),
    {
        let mut b = self;
        b.options.cwd = Some(path);
        b
    }

    pub fn cli_path(self, path: String) -> (r: Self)
        ensures
            r.options == (AgentOptions { cli_path: Some(path), ..self.options }),
    {
        let mut b = self;
        b.options.cli_path = Some(path);
        b
    }

    pub fn allowed_tools(self, tools: Vec<String>) -> (r: Self)
        ensures
            r.options == (AgentOptions { allowed_tools: tools, ..self.options }),
    {
        let mut b = self;
        b.options.allowed_tools = tools;
        b
    }

    pub fn disallowed_tools(self, tools: Vec<String>) -> (r: Self)
        ensures
            r.options == (AgentOptions { disallowed_tools: tools, ..self.options }),
    {
        let mut b = self;
        b.options.disallowed_tools = tools;
        b
    }

    pub fn mcp_servers(self, servers: McpServersConfig) -> (r: Self)
        ensures
            r.options == (AgentOptions { mcp_servers: Some(servers), ..self.options }),
    {
        let mut b = self;
        b.options.mcp_servers = Some(servers);
        b
    }

    pub fn include_partial_messages(self, enabled: bool) -> (r: Self)
        ensures
            r.options == (AgentOptions { include_partial_messages: enabled, ..self.options }),
    {
        let mut b = self;
        b.options.include_partial_messages = enabled;
        b
    }

    pub fn setting_sources(self, sources: Vec<SettingSource>) -> (r: Self)
        ensures
            r.options == (AgentOptions { setting_sources: Some(sources), ..self.options }),
    {
        let mut b = self;
        b.options.setting_sources = Some(sources);
        b
    }

    pub fn max_thinking_tokens(self, tokens: u32) -> (r: Self)
        ensures
            r.options == (AgentOptions { max_thinking_tokens: Some(tokens), ..self.options }),
    {
        let mut b = self;
        b.options.max_thinking_tokens = Some(tokens);
        b
    }

    pub fn effort(self, effort: Effort) -> (r: Self)
        ensures
            r.options == (AgentOptions { effort: Some(effort), ..self.options }),
    {
        let mut b = self;
        b.options.effort = Some(effort);
        b
    }

    pub fn output_format(self, format: Json) -> (r: Self)
        ensures
            r.options == (AgentOptions { output_format: Some(format), ..self.options }),
    {
        let mut b = self;
        b.options.output_format = Some(format);
        b
    }

    pub fn enable_file_checkpointing(self, enable: bool) -> (r: Self)
        ensures
            r.options == (AgentOptions { enable_file_checkpointing: enable, ..self.options }),
    {
        let mut b = self;
        b.options.enable_file_checkpointing = enable;
        b
    }

    pub fn betas(self, betas: Vec<SdkBeta>) -> (r: Self)
        ensures
            r.options == (AgentOptions { betas: betas, ..self.options }),
    {
        let mut b = self;
        b.options.betas = betas;
        b
    }

    pub fn settings(self, settings: String) -> (r: Self)
        ensures
            r.options == (AgentOptions { settings: Some(settings), ..self.options }),
    {
        let mut b = self;
        b.options.settings = Some(settings);
        b
    }

    pub fn sandbox(self, sandbox: SandboxSettings) -> (r: Self)
        ensures
            r.options == (AgentOptions { sandbox: Some(sandbox), ..self.options }),
    {
        let mut b = self;
        b.options.sandbox = Some(sandbox);
        b
    }

    pub fn user(self, user: String) -> (r: Self)
        ensures
            r.options == (AgentOptions { user: Some(user), ..self.options }),
    {
        let mut b = self;
        b.options.user = Some(user);
        b
    }

    pub fn agents(self, agents: Vec<(String, AgentDefinition)>) -> (r: Self)
        ensures
            r.options == (AgentOptions { agents: Some(agents), ..self.options }),
    {
        let mut b = self;
        b.options.agents = Some(agents);
        b
    }

    pub fn thinking(self, thinking: ThinkingConfig) -> (r: Self)
        ensures
            r.options == (AgentOptions { thinking: Some(thinking), ..self.options }),
    {
        let mut b = self;
        b.options.thinking = Some(thinking);
        b
    }

    pub fn can_use_tool(self, enabled: bool) -> (r: Self)
        ensures
            r.options == (AgentOptions { can_use_tool: enabled, ..self.options }),
    {
        let mut b = self;
        b.options.can_use_tool = enabled;
        b
    }

    pub fn hooks(self, hooks: Vec<(HookEvent, Vec<HookMatcher>)>) -> (r: Self)
        ensures
            r.options == (AgentOptions { hooks: Some(hooks), ..self.options }),
    {
        let mut b = self;
        b.options.hooks = Some(hooks);
        b
    }

    pub fn stderr(self, enabled: bool) -> (r: Self)
        ensures
            r.options == (AgentOptions { stderr: enabled, ..self.options }),
    {
        let mut b = self;
        b.options.stderr = enabled;
        b
    }

    pub fn codex(self, codex_opts: CodexOptions) -> (r: Self)
        ensures
            r.options == (AgentOptions { codex: Some(codex_opts), ..self.options }),
    {
        let mut b = self;
        b.options.codex = Some(codex_opts);
        b
    }

    pub fn cursor(self, cursor_opts: CursorOptions) -> (r: Self)
        ensures
            r.options == (AgentOptions { cursor: Some(cursor_opts), ..self.options }),
    {
        let mut b = self;
        b.options.cursor = Some(cursor_opts);
        b
    }

    pub fn env(self, key: String, value: String) -> (r: Self)
        ensures
            r.options == (AgentOptions { env: r.options.env, ..self.options }),
            r.options.env@ == self.options.env@.push((key, value)),
    {
        let mut b = self;
        b.options.env.push((key, value));
        b
    }

    pub fn extra_arg(self, flag: String, value: Option<String>) -> (r: Self)
        ensures
            r.options == (AgentOptions { extra_args: r.options.extra_args, ..self.options }),
            r.options.extra_args@ == self.options.extra_args@.push((flag, value)),
    {
        let mut b = self;
        b.options.extra_args.push((flag, value));
        b
    }

    pub fn add_dir(self, path: String) -> (r: Self)
        ensures
            r.options == (AgentOptions { add_dirs: r.options.add_dirs, ..self.options }),
            r.options.add_dirs@ == self.options.add_dirs@.push(path),
    {
        let mut b = self;
        b.options.add_dirs.push(path);
        b
    }

    pub fn plugin(self, path: String) -> (r: Self)
        ensures
            r.options == (AgentOptions { plugins: r.options.plugins, ..self.options }),
            r.options.plugins@.len() == self.options.plugins@.len() + 1,
            r.options.plugins@.last().type_@ == "local"@,
            r.options.plugins@.last().path == path,
            r.options.plugins@.take(self.options.plugins@.len() as int) == self.options.plugins@,
    {
        let mut b = self;
        b.options.plugins.push(SdkPluginConfig { type_: String::from_str("local"), path });
        proof {
            assert(b.options.plugins@.take(self.options.plugins@.len() as int)
                =~= self.options.plugins@);
        }
        b
    }
}

impl Default for AgentOptionsBuilder {
    /// Same as [`AgentOptionsBuilder::new`].
    fn default() -> (r: Self)
        ensures
            is_default_options(r.options),
    {
        AgentOptionsBuilder::new()
    }
}

impl AgentOptions {
    /// A builder over default options.
    pub fn builder() -> (r: AgentOptionsBuilder)
        ensures
            is_default_options(r.options),
    {
        AgentOptionsBuilder::new()
    }
}

} // verus!
