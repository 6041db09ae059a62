//! Backend descriptors: which backend is which, what each one can do, and
//! which options each one accepts.
//!
//! Capability gating rests on these tables: the client facade consults a
//! backend's [`Capabilities`] before any operation that not every backend
//! supports, and `validate_options` names every offending field at once.

use vstd::prelude::*;

use crate::error::Error;
use crate::options::AgentOptions;

verus! {

/// Selects which CLI backend to use.
#[derive(Debug, Clone, Copy, PartialEq, Eq, Structural)]
pub enum BackendKind {
    /// The persistent control-protocol CLI.
    Control,
    /// The JSON-RPC app-server CLI.
    Codex,
    /// The spawn-per-turn CLI.
    Cursor,
}

/// Human-readable backend name.
pub open spec fn backend_name_of(kind: BackendKind) -> Seq<char> {
    match kind {
        BackendKind::Control => "Control"@,
        BackendKind::Codex => "Codex"@,
        BackendKind::Cursor => "Cursor"@,
    }
}

/// Human-readable name for a backend kind.
pub fn backend_name(kind: BackendKind) -> (r: &'static str)
    ensures
        r@ == backend_name_of(kind),
{
    match kind {
        BackendKind::Control => "Control",
        BackendKind::Codex => "Codex",
        BackendKind::Cursor => "Cursor",
    }
}

/// What features a backend supports.
///
/// Created once per backend at startup and never mutated; the client facade
/// consults it before delegating capability-sensitive operations.
#[derive(Debug, Clone, Copy, PartialEq, Eq, Structural)]
pub struct Capabilities {
    /// The persistent control protocol (control_request / control_response).
    pub control_protocol: bool,
    /// Tool approval callbacks.
    pub tool_approval: bool,
    /// Hook callbacks.
    pub hooks: bool,
    /// In-process tool-server routing.
    pub sdk_mcp_routing: bool,
    /// A long-lived session process.
    pub persistent_session: bool,
    /// Turn interruption.
    pub interrupt: bool,
    /// Runtime configuration changes.
    pub runtime_config_changes: bool,
}

/// The capability table of the persistent control-protocol backend.
pub open spec fn control_capabilities_v() -> Capabilities {
    Capabilities {
        control_protocol: true,
        tool_approval: true,
        hooks: true,
        sdk_mcp_routing: true,
        persistent_session: true,
        interrupt: true,
        runtime_config_changes: true,
    }
}

/// The capability table of the app-server backend.
pub open spec fn codex_capabilities_v() -> Capabilities {
    Capabilities {
        control_protocol: false,
        tool_approval: true,
        hooks: false,
        sdk_mcp_routing: false,
        persistent_session: true,
        interrupt: true,
        runtime_config_changes: false,
    }
}

/// The capability table of the spawn-per-turn backend.
pub open spec fn cursor_capabilities_v() -> Capabilities {
    Capabilities {
        control_protocol: false,
        tool_approval: false,
        hooks: false,
        sdk_mcp_routing: false,
        persistent_session: false,
        interrupt: false,
        runtime_config_changes: false,
    }
}

/// Capabilities of the persistent control-protocol backend.
pub fn control_capabilities() -> (r: Capabilities)
    ensures
        r == control_capabilities_v(),
{
    Capabilities {
        control_protocol: true,
        tool_approval: true,
        hooks: true,
        sdk_mcp_routing: true,
        persistent_session: true,
        interrupt: true,
        runtime_config_changes: true,
    }
}

/// Capabilities of the app-server backend.
pub fn codex_capabilities() -> (r: Capabilities)
    ensures
        r == codex_capabilities_v(),
{
    Capabilities {
        control_protocol: false,
        tool_approval: true,
        hooks: false,
        sdk_mcp_routing: false,
        persistent_session: true,
        interrupt: true,
        runtime_config_changes: false,
    }
}

/// Capabilities of the spawn-per-turn backend.
pub fn cursor_capabilities() -> (r: Capabilities)
    ensures
        r == cursor_capabilities_v(),
{
    Capabilities {
        control_protocol: false,
        tool_approval: false,
        hooks: false,
        sdk_mcp_routing: false,
        persistent_session: false,
        interrupt: false,
        runtime_config_changes: false,
    }
}

/// The capability table of a backend kind.
pub open spec fn capabilities_of(kind: BackendKind) -> Capabilities {
    match kind {
        BackendKind::Control => control_capabilities_v(),
        BackendKind::Codex => codex_capabilities_v(),
        BackendKind::Cursor => cursor_capabilities_v(),
    }
}

/// Capabilities of a backend kind.
pub fn capabilities_for(kind: BackendKind) -> (r: Capabilities)
    ensures
        r == capabilities_of(kind),
{
    match kind {
        BackendKind::Control => control_capabilities(),
        BackendKind::Codex => codex_capabilities(),
        BackendKind::Cursor => cursor_capabilities(),
    }
}

/// The option fields the app-server backend refuses, in documented order.
pub open spec fn codex_unsupported_fields(o: AgentOptions) -> Seq<Seq<char>> {
    let s0 = Seq::<Seq<char>>::empty();
    let s1 = if o.system_prompt is Some { s0.push("system_prompt"@) } else { s0 };
    let s2 = if o.hooks is Some { s1.push("hooks"@) } else { s1 };
    let s3 = if o.fork_session { s2.push("fork_session"@) } else { s2 };
    let s4 = if o.setting_sources is Some { s3.push("setting_sources"@) } else { s3 };
    let s5 = if o.plugins@.len() > 0 { s4.push("plugins"@) } else { s4 };
    let s6 = if o.permission_prompt_tool_name is Some {
        s5.push("permission_prompt_tool_name"@)
    } else {
        s5
    };
    s6
}

/// The option fields the spawn-per-turn backend refuses, in documented
/// order.
pub open spec fn cursor_unsupported_fields(o: AgentOptions) -> Seq<Seq<char>> {
    let s0 = Seq::<Seq<char>>::empty();
    let s1 = if o.system_prompt is Some { s0.push("system_prompt"@) } else { s0 };
    let s2 = if o.can_use_tool { s1.push("can_use_tool"@) } else { s1 };
    let s3 = if o.hooks is Some { s2.push("hooks"@) } else { s2 };
    let s4 = if o.mcp_servers is Some { s3.push("mcp_servers"@) } else { s3 };
    let s5 = if o.fork_session { s4.push("fork_session"@) } else { s4 };
    let s6 = if o.setting_sources is Some { s5.push("setting_sources"@) } else { s5 };
    let s7 = if o.plugins@.len() > 0 { s6.push("plugins"@) } else { s6 };
    let s8 = if o.permission_prompt_tool_name is Some {
        s7.push("permission_prompt_tool_name"@)
    } else {
        s7
    };
    let s9 = if o.output_format is Some {
        s8.push("output_format (structured output)"@)
    } else {
        s8
    };
    s9
}

/// The outcome of options validation: `Ok` exactly when no field was
/// refused, else all refused fields at once under the backend's name.
pub open spec fn validation_v(r: Result<(), Error>, backend: Seq<char>, fields: Seq<Seq<char>>) -> bool {
    if fields.len() == 0 {
        r is Ok
    } else {
        r matches Err(Error::UnsupportedOptions { backend: b, options: opts }) && b@ == backend
            && opts@.map_values(|o: String| o@) == fields
    }
}

/// The persistent control-protocol backend.
#[derive(Debug)]
pub struct ControlBackend {
    capabilities: Capabilities,
}

impl ControlBackend {
    /// A descriptor of the persistent control-protocol backend.
    pub fn new() -> (r: Self)
        ensures
            r.capabilities() == control_capabilities_v(),
    {
        ControlBackend { capabilities: control_capabilities() }
    }

    /// This backend's capability table.
    pub closed spec fn capabilities(&self) -> Capabilities {
        self.capabilities
    }

    /// Feature capabilities of this backend.
    #[verifier::when_used_as_spec(capabilities)]
    pub fn get_capabilities(&self) -> (r: Capabilities)
        ensures
            r == self.capabilities(),
    {
        self.capabilities
    }

    /// Human-readable backend name.
    pub fn name(&self) -> (r: &'static str)
        ensures
            r@ == "Control"@,
    {
        "Control"
    }

    /// This backend accepts every option.
    pub fn validate_options(&self, options: &AgentOptions) -> (r: Result<(), Error>)
        ensures
            r is Ok,
    {
        let _ = options;
        Ok(())
    }
}

/// The app-server backend.
#[derive(Debug)]
pub struct CodexBackend {
    capabilities: Capabilities,
}

impl CodexBackend {
    /// A descriptor of the app-server backend.
    pub fn new() -> (r: Self)
        ensures
            r.capabilities() == codex_capabilities_v(),
    {
        CodexBackend { capabilities: codex_capabilities() }
    }

    /// This backend's capability table.
    pub closed spec fn capabilities(&self) -> Capabilities {
        self.capabilities
    }

    /// Feature capabilities of this backend.
    #[verifier::when_used_as_spec(capabilities)]
    pub fn get_capabilities(&self) -> (r: Capabilities)
        ensures
            r == self.capabilities(),
    {
        self.capabilities
    }

    /// Human-readable backend name.
    pub fn name(&self) -> (r: &'static str)
        ensures
            r@ == "Codex"@,
    {
        "Codex"
    }

    /// Refuse the options this backend does not support, naming every
    /// offending field at once.
    pub fn validate_options(&self, options: &AgentOptions) -> (r: Result<(), Error>)
        ensures
            validation_v(r, "Codex"@, codex_unsupported_fields(*options)),
    {
        let mut unsupported: Vec<String> = Vec::new();
        if options.system_prompt.is_some() {
            unsupported.push(String::from_str("system_prompt"));
        }
        if options.hooks.is_some() {
            unsupported.push(String::from_str("hooks"));
        }
        if options.fork_session {
            unsupported.push(String::from_str("fork_session"));
        }
        if options.setting_sources.is_some() {
            unsupported.push(String::from_str("setting_sources"));
        }
        if options.plugins.len() > 0 {
            unsupported.push(String::from_str("plugins"));
        }
        if options.permission_prompt_tool_name.is_some() {
            unsupported.push(String::from_str("permission_prompt_tool_name"));
        }
        proof {
            assert(unsupported@.map_values(|o: String| o@) =~= codex_unsupported_fields(
                *options,
            ));
        }
        if unsupported.len() == 0 {
            Ok(())
        } else {
            Err(Error::UnsupportedOptions { backend: String::from_str("Codex"), options: unsupported })
        }
    }
}

/// The spawn-per-turn backend.
#[derive(Debug)]
pub struct CursorBackend {
    capabilities: Capabilities,
}

impl CursorBackend {
    /// A descriptor of the spawn-per-turn backend.
    pub fn new() -> (r: Self)
        ensures
            r.capabilities() == cursor_capabilities_v(),
    {
        CursorBackend { capabilities: cursor_capabilities() }
    }

    /// This backend's capability table.
    pub closed spec fn capabilities(&self) -> Capabilities {
        self.capabilities
    }

    /// Feature capabilities of this backend.
    #[verifier::when_used_as_spec(capabilities)]
    pub fn get_capabilities(&self) -> (r: Capabilities)
        ensures
            r == self.capabilities(),
    {
        self.capabilities
    }

    /// Human-readable backend name.
    pub fn name(&self) -> (r: &'static str)
        ensures
            r@ == "Cursor"@,
    {
        "Cursor"
    }

    /// Refuse the options this backend does not support, naming every
    /// offending field at once.
    #[verifier::rlimit(100)]
    pub fn validate_options(&self, options: &AgentOptions) -> (r: Result<(), Error>)
        ensures
            validation_v(r, "Cursor"@, cursor_unsupported_fields(*options)),
    {
        let mut unsupported: Vec<String> = Vec::new();
        if options.system_prompt.is_some() {
            unsupported.push(String::from_str("system_prompt"));
        }
        if options.can_use_tool {
            unsupported.push(String::from_str("can_use_tool"));
        }
        if options.hooks.is_some() {
            unsupported.push(String::from_str("hooks"));
        }
        if options.mcp_servers.is_some() {
            unsupported.push(String::from_str("mcp_servers"));
        }
        if options.fork_session {
            unsupported.push(String::from_str("fork_session"));
        }
        if options.setting_sources.is_some() {
            unsupported.push(String::from_str("setting_sources"));
        }
        if options.plugins.len() > 0 {
            unsupported.push(String::from_str("plugins"));
        }
        if options.permission_prompt_tool_name.is_some() {
            unsupported.push(String::from_str("permission_prompt_tool_name"));
        }
        if options.output_format.is_some() {
            unsupported.push(String::from_str("output_format (structured output)"));
        }
        proof {
            assert(unsupported@.map_values(|o: String| o@) =~= cursor_unsupported_fields(
                *options,
            ));
        }
        if unsupported.len() == 0 {
            Ok(())
        } else {
            Err(Error::UnsupportedOptions { backend: String::from_str("Cursor"), options: unsupported })
        }
    }
}

/// Validate options against the backend a kind names.
pub fn validate_options_for(kind: BackendKind, options: &AgentOptions) -> (r: Result<(), Error>)
    ensures
        kind is Control ==> r is Ok,
        kind is Codex ==> validation_v(r, "Codex"@, codex_unsupported_fields(*options)),
        kind is Cursor ==> validation_v(r, "Cursor"@, cursor_unsupported_fields(*options)),
{
    match kind {
        BackendKind::Control => ControlBackend::new().validate_options(options),
        BackendKind::Codex => CodexBackend::new().validate_options(options),
        BackendKind::Cursor => CursorBackend::new().validate_options(options),
    }
}

} // verus!
