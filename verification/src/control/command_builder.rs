//! Argument builder for the persistent control-protocol CLI.
//!
//! Every option is rendered into the exact flags the binary expects; the
//! specification functions below pin the argument list down section by
//! section, in the order the flags appear.

use vstd::prelude::*;

use crate::json::{Json, JsonNum, JsonV};
use crate::jsontext::{json_to_string, jv_text, parse_json};
use crate::options::{
    effort_label, permission_mode_label, sdk_beta_label, setting_source_label, AgentOptions,
    McpServerConfig, McpServersConfig, SandboxIgnoreViolations, SandboxNetworkConfig,
    SandboxSettings, SdkBeta, SettingSource, SystemPromptConfig, ThinkingConfig, ToolsConfig,
};
use crate::text::{
    concat_str, dec_digits, join_strings, join_text, str_to_chars, u64_string, chars_to_string,
};

verus! {

broadcast use {crate::json::lemma_obj_fields_push, crate::json::lemma_obj_fields_empty};

/// Views of a string vector.
pub open spec fn args_v(v: Seq<String>) -> Seq<Seq<char>> {
    v.map_values(|s: String| s@)
}

/// The labels of a string list, joined with commas.
pub open spec fn joined_v(items: Seq<String>, sep: Seq<char>) -> Seq<char> {
    join_text(items.map_values(|s: String| s@), sep)
}

/// The fixed head of every invocation.
pub open spec fn head_args_v(cli_path: Seq<char>) -> Seq<Seq<char>> {
    seq![cli_path, "--output-format"@, "stream-json"@, "--verbose"@]
}

/// The system prompt flags: explicit text (empty when unset), or only an
/// append suffix for a preset.
pub open spec fn system_prompt_args_v(o: AgentOptions) -> Seq<Seq<char>> {
    match o.system_prompt {
        None => seq!["--system-prompt"@, Seq::empty()],
        Some(SystemPromptConfig::Text(s)) => seq!["--system-prompt"@, s@],
        Some(SystemPromptConfig::Preset { preset: _, append }) => match append {
            Some(a) => seq!["--append-system-prompt"@, a@],
            None => Seq::empty(),
        },
    }
}

/// The tools flags.
pub open spec fn tools_args_v(o: AgentOptions) -> Seq<Seq<char>> {
    match o.tools {
        Some(ToolsConfig::List(list)) => seq![
            "--tools"@,
            if list@.len() == 0 {
                Seq::<char>::empty()
            } else {
                joined_v(list@, ","@)
            },
        ],
        Some(ToolsConfig::Preset { .. }) => seq!["--tools"@, "default"@],
        None => Seq::empty(),
    }
}

/// A `--flag value` pair present only when the option is set.
pub open spec fn opt_str_args_v(flag: Seq<char>, v: Option<String>) -> Seq<Seq<char>> {
    match v {
        Some(s) => seq![flag, s@],
        None => Seq::empty(),
    }
}

/// The middle section: tool filters, limits, models, modes, continuation.
pub open spec fn middle_args_v(o: AgentOptions) -> Seq<Seq<char>> {
    limits_args_v(o) + models_args_v(o)
}

/// Tool filters and numeric limits.
pub open spec fn limits_args_v(o: AgentOptions) -> Seq<Seq<char>> {
    (if o.allowed_tools@.len() > 0 {
        seq!["--allowedTools"@, joined_v(o.allowed_tools@, ","@)]
    } else {
        Seq::empty()
    }) + (match o.max_turns {
        Some(t) => seq!["--max-turns"@, dec_digits(t as int)],
        None => Seq::empty(),
    }) + (match o.max_budget_usd {
        Some(b) => seq!["--max-budget-usd"@, crate::jsontext::num_text(b.jv())],
        None => Seq::empty(),
    }) + (if o.disallowed_tools@.len() > 0 {
        seq!["--disallowedTools"@, joined_v(o.disallowed_tools@, ","@)]
    } else {
        Seq::empty()
    })
}

/// Model choices, permission mode, and continuation.
pub open spec fn models_args_v(o: AgentOptions) -> Seq<Seq<char>> {
    opt_str_args_v("--model"@, o.model) + opt_str_args_v("--fallback-model"@, o.fallback_model)
        + (match o.permission_mode {
        Some(m) => seq!["--permission-mode"@, permission_mode_label(m)],
        None => Seq::empty(),
    }) + (if o.continue_conversation {
        seq!["--continue"@]
    } else {
        Seq::empty()
    }) + opt_str_args_v("--resume"@, o.resume)
}

/// The JSON form of sandbox settings, omitting absent fields.
pub open spec fn sandbox_json_v(s: SandboxSettings) -> JsonV {
    JsonV::Obj(
        (match s.enabled {
            Some(v) => seq![("enabled"@, JsonV::Bool(v))],
            None => Seq::empty(),
        }) + (match s.auto_allow_bash_if_sandboxed {
            Some(v) => seq![("autoAllowBashIfSandboxed"@, JsonV::Bool(v))],
            None => Seq::empty(),
        }) + (match s.excluded_commands {
            Some(v) => seq![
                ("excludedCommands"@, JsonV::Arr(v@.map_values(|x: String| JsonV::Str(x@)))),
            ],
            None => Seq::empty(),
        }) + (match s.allow_unsandboxed_commands {
            Some(v) => seq![("allowUnsandboxedCommands"@, JsonV::Bool(v))],
            None => Seq::empty(),
        }) + (match s.network {
            Some(n) => {
                let nm = sandbox_network_fields_v(n);
                if nm.len() > 0 {
                    seq![("network"@, JsonV::Obj(nm))]
                } else {
                    Seq::empty()
                }
            },
            None => Seq::empty(),
        }) + (match s.ignore_violations {
            Some(iv) => {
                let ivm = sandbox_ignore_fields_v(iv);
                if ivm.len() > 0 {
                    seq![("ignoreViolations"@, JsonV::Obj(ivm))]
                } else {
                    Seq::empty()
                }
            },
            None => Seq::empty(),
        }) + (match s.enable_weaker_nested_sandbox {
            Some(v) => seq![("enableWeakerNestedSandbox"@, JsonV::Bool(v))],
            None => Seq::empty(),
        }),
    )
}

/// The JSON fields of sandbox network settings.
pub open spec fn sandbox_network_fields_v(n: SandboxNetworkConfig) -> Seq<(Seq<char>, JsonV)> {
    (match n.allow_unix_sockets {
        Some(v) => seq![
            ("allowUnixSockets"@, JsonV::Arr(v@.map_values(|x: String| JsonV::Str(x@)))),
        ],
        None => Seq::empty(),
    }) + (match n.allow_all_unix_sockets {
        Some(v) => seq![("allowAllUnixSockets"@, JsonV::Bool(v))],
        None => Seq::empty(),
    }) + (match n.allow_local_binding {
        Some(v) => seq![("allowLocalBinding"@, JsonV::Bool(v))],
        None => Seq::empty(),
    }) + (match n.http_proxy_port {
        Some(v) => seq![("httpProxyPort"@, JsonV::Num(crate::json::JsonNumV::Int(v as int)))],
        None => Seq::empty(),
    }) + (match n.socks_proxy_port {
        Some(v) => seq![("socksProxyPort"@, JsonV::Num(crate::json::JsonNumV::Int(v as int)))],
        None => Seq::empty(),
    })
}

/// The JSON fields of sandbox violation exclusions.
pub open spec fn sandbox_ignore_fields_v(iv: SandboxIgnoreViolations) -> Seq<(Seq<char>, JsonV)> {
    (match iv.file {
        Some(v) => seq![("file"@, JsonV::Arr(v@.map_values(|x: String| JsonV::Str(x@))))],
        None => Seq::empty(),
    }) + (match iv.network {
        Some(v) => seq![("network"@, JsonV::Arr(v@.map_values(|x: String| JsonV::Str(x@))))],
        None => Seq::empty(),
    })
}

/// The `--settings` value: absent settings pass through, a sandbox folds
/// everything into one JSON object. `inline_fields` stands for the fields
/// read out of an inline or file settings source, empty when none parse.
pub open spec fn settings_value_v(o: AgentOptions, inline_fields: Seq<(Seq<char>, JsonV)>) -> Option<
    Seq<char>,
> {
    if o.settings is None && o.sandbox is None {
        None
    } else if o.sandbox is None {
        match o.settings {
            Some(s) => Some(s@),
            None => None,
        }
    } else {
        Some(
            jv_text(
                JsonV::Obj(
                    inline_fields + seq![("sandbox"@, sandbox_json_v(o.sandbox->0))],
                ),
            ),
        )
    }
}

/// The `--settings` flag from [`settings_value_v`].
pub open spec fn settings_args_v(o: AgentOptions, inline_fields: Seq<(Seq<char>, JsonV)>) -> Seq<
    Seq<char>,
> {
    match settings_value_v(o, inline_fields) {
        Some(v) => seq!["--settings"@, v],
        None => Seq::empty(),
    }
}

/// The beta flags.
pub open spec fn betas_args_v(o: AgentOptions) -> Seq<Seq<char>> {
    if o.betas@.len() > 0 {
        seq!["--betas"@, join_text(o.betas@.map_values(|b: SdkBeta| sdk_beta_label(b)), ","@)]
    } else {
        Seq::empty()
    }
}

/// One `--add-dir` pair per directory.
pub open spec fn add_dirs_args_v(dirs: Seq<String>) -> Seq<Seq<char>>
    decreases dirs.len(),
{
    if dirs.len() == 0 {
        Seq::empty()
    } else {
        seq!["--add-dir"@, dirs[0]@] + add_dirs_args_v(dirs.drop_first())
    }
}

/// The JSON form of one tool-server configuration, as handed to the CLI.
pub open spec fn mcp_server_json_v(c: McpServerConfig) -> JsonV {
    match c {
        McpServerConfig::Sdk(s) => JsonV::Obj(
            seq![
                ("type"@, JsonV::Str("sdk"@)),
                ("name"@, JsonV::Str(s.name@)),
                ("version"@, JsonV::Str(s.version@)),
            ],
        ),
        McpServerConfig::Stdio(s) => JsonV::Obj(
            seq![("type"@, JsonV::Str("stdio"@)), ("command"@, JsonV::Str(s.command@))] + (
            match s.args {
                Some(a) => seq![("args"@, JsonV::Arr(a@.map_values(|x: String| JsonV::Str(x@))))],
                None => Seq::empty(),
            }) + (match s.env {
                Some(e) => seq![
                    (
                        "env"@,
                        JsonV::Obj(
                            e@.map_values(|kv: (String, String)| (kv.0@, JsonV::Str(kv.1@))),
                        ),
                    ),
                ],
                None => Seq::empty(),
            }),
        ),
        McpServerConfig::Sse(s) => JsonV::Obj(
            seq![("type"@, JsonV::Str("sse"@)), ("url"@, JsonV::Str(s.url@))] + (match s.headers {
                Some(h) => seq![
                    (
                        "headers"@,
                        JsonV::Obj(
                            h@.map_values(|kv: (String, String)| (kv.0@, JsonV::Str(kv.1@))),
                        ),
                    ),
                ],
                None => Seq::empty(),
            }),
        ),
        McpServerConfig::Http(s) => JsonV::Obj(
            seq![("type"@, JsonV::Str("http"@)), ("url"@, JsonV::Str(s.url@))] + (match s.headers {
                Some(h) => seq![
                    (
                        "headers"@,
                        JsonV::Obj(
                            h@.map_values(|kv: (String, String)| (kv.0@, JsonV::Str(kv.1@))),
                        ),
                    ),
                ],
                None => Seq::empty(),
            }),
        ),
    }
}

/// The tool-server flags: the whole table as one JSON argument, or a path
/// passed through.
pub open spec fn mcp_args_v(mcp_servers: Option<McpServersConfig>) -> Seq<Seq<char>> {
    match mcp_servers {
        Some(McpServersConfig::Dict(servers)) => if servers@.len() > 0 {
            seq![
                "--mcp-config"@,
                jv_text(
                    JsonV::Obj(
                        seq![
                            (
                                "mcpServers"@,
                                JsonV::Obj(
                                    servers@.map_values(
                                        |kv: (String, McpServerConfig)|
                                            (kv.0@, mcp_server_json_v(kv.1)),
                                    ),
                                ),
                            ),
                        ],
                    ),
                ),
            ]
        } else {
            Seq::empty()
        },
        Some(McpServersConfig::Path(p)) => seq!["--mcp-config"@, p@],
        None => Seq::empty(),
    }
}

/// The setting-sources flag, always present, empty when unset.
pub open spec fn setting_sources_args_v(o: AgentOptions) -> Seq<Seq<char>> {
    seq![
        "--setting-sources"@,
        match o.setting_sources {
            Some(sources) => join_text(
                sources@.map_values(|s: SettingSource| setting_source_label(s)),
                ","@,
            ),
            None => Seq::empty(),
        },
    ]
}

/// One `--plugin-dir` pair per local plugin.
pub open spec fn plugins_args_v(plugins: Seq<crate::options::SdkPluginConfig>) -> Seq<Seq<char>>
    decreases plugins.len(),
{
    if plugins.len() == 0 {
        Seq::empty()
    } else {
        (if plugins[0].type_@ == "local"@ {
            seq!["--plugin-dir"@, plugins[0].path@]
        } else {
            Seq::empty()
        }) + plugins_args_v(plugins.drop_first())
    }
}

/// Extra arguments, each flag prefixed with `--`, valued or bare.
pub open spec fn extra_args_v(extra: Seq<(String, Option<String>)>) -> Seq<Seq<char>>
    decreases extra.len(),
{
    if extra.len() == 0 {
        Seq::empty()
    } else {
        (match extra[0].1 {
            Some(v) => seq!["--"@ + extra[0].0@, v@],
            None => seq!["--"@ + extra[0].0@],
        }) + extra_args_v(extra.drop_first())
    }
}

/// The thinking-token budget a configuration resolves to.
pub open spec fn resolved_thinking_v(o: AgentOptions) -> Option<u32> {
    match o.thinking {
        Some(ThinkingConfig::Adaptive) => match o.max_thinking_tokens {
            Some(t) => Some(t),
            None => Some(32000u32),
        },
        Some(ThinkingConfig::Enabled { budget_tokens }) => Some(budget_tokens),
        Some(ThinkingConfig::Disabled) => Some(0u32),
        None => o.max_thinking_tokens,
    }
}

/// The closing section: thinking budget, effort, output schema, permission
/// prompt tool, and the input format.
pub open spec fn tail_args_v(o: AgentOptions) -> Seq<Seq<char>> {
    (match resolved_thinking_v(o) {
        Some(t) => seq!["--max-thinking-tokens"@, dec_digits(t as int)],
        None => Seq::empty(),
    }) + (match o.effort {
        Some(e) => seq!["--effort"@, effort_label(e)],
        None => Seq::empty(),
    }) + (match o.output_format {
        Some(of) => {
            if of.jv() is Obj && crate::json::jv_get_str(of.jv(), "type"@) == Some("json_schema"@)
                && crate::json::jv_get(of.jv(), "schema"@) is Some {
                seq!["--json-schema"@, jv_text(crate::json::jv_get(of.jv(), "schema"@)->0)]
            } else {
                Seq::empty()
            }
        },
        None => Seq::empty(),
    }) + opt_str_args_v("--permission-prompt-tool"@, o.permission_prompt_tool_name) + seq![
        "--input-format"@,
        "stream-json"@,
    ]
}

/// The full argument list: the binary itself first, then every section in
/// order.
pub open spec fn build_command_v(
    cli_path: Seq<char>,
    o: AgentOptions,
    settings_inline: Seq<(Seq<char>, JsonV)>,
) -> Seq<Seq<char>> {
    head_args_v(cli_path) + system_prompt_args_v(o) + tools_args_v(o) + middle_args_v(o)
        + settings_args_v(o, settings_inline) + betas_args_v(o) + add_dirs_args_v(o.add_dirs@)
        + mcp_args_v(o.mcp_servers) + (if o.include_partial_messages {
        seq!["--include-partial-messages"@]
    } else {
        Seq::empty()
    }) + (if o.fork_session {
        seq!["--fork-session"@]
    } else {
        Seq::empty()
    }) + setting_sources_args_v(o) + plugins_args_v(o.plugins@) + extra_args_v(o.extra_args@)
        + tail_args_v(o)
}

fn push_arg(cmd: &mut Vec<String>, s: &str)
    ensures
        args_v(final(cmd)@) == args_v(old(cmd)@).push(s@),
{
    cmd.push(String::from_str(s));
    proof {
        assert(args_v(final(cmd)@) =~= args_v(old(cmd)@).push(s@));
    }
}

fn push_arg_string(cmd: &mut Vec<String>, s: String)
    ensures
        args_v(final(cmd)@) == args_v(old(cmd)@).push(s@),
{
    cmd.push(s);
    proof {
        assert(args_v(final(cmd)@) =~= args_v(old(cmd)@).push(final(cmd)@.last()@));
    }
}

/// Resolve the thinking-token budget for the flag.
pub fn resolve_max_thinking_tokens(options: &AgentOptions) -> (r: Option<u32>)
    ensures
        r == resolved_thinking_v(*options),
{
    match &options.thinking {
        Some(ThinkingConfig::Adaptive) => match options.max_thinking_tokens {
            Some(t) => Some(t),
            None => Some(32000),
        },
        Some(ThinkingConfig::Enabled { budget_tokens }) => Some(*budget_tokens),
        Some(ThinkingConfig::Disabled) => Some(0),
        None => options.max_thinking_tokens,
    }
}

/// Render sandbox network settings as their JSON fields.
fn sandbox_network_json(n: &SandboxNetworkConfig) -> (r: Json)
    ensures
        r.jv() == JsonV::Obj(sandbox_network_fields_v(*n)),
        r is Obj,
        r->Obj_0@.len() == sandbox_network_fields_v(*n).len(),
{
    let mut nm: Vec<(String, Json)> = Vec::new();
    if let Some(v) = &n.allow_unix_sockets {
        nm.push((String::from_str("allowUnixSockets"), string_list_json(v)));
    }
    if let Some(v) = n.allow_all_unix_sockets {
        nm.push((String::from_str("allowAllUnixSockets"), Json::Bool(v)));
    }
    if let Some(v) = n.allow_local_binding {
        nm.push((String::from_str("allowLocalBinding"), Json::Bool(v)));
    }
    if let Some(v) = n.http_proxy_port {
        nm.push((String::from_str("httpProxyPort"), Json::Num(JsonNum::Int(v as i64))));
    }
    if let Some(v) = n.socks_proxy_port {
        nm.push((String::from_str("socksProxyPort"), Json::Num(JsonNum::Int(v as i64))));
    }
    proof {
        crate::json::lemma_obj_fields(nm);
        assert(crate::json::obj_fields_v(nm@) =~= sandbox_network_fields_v(*n));
    }
    Json::Obj(nm)
}

/// Render sandbox violation exclusions as their JSON fields.
fn sandbox_ignore_json(iv: &SandboxIgnoreViolations) -> (r: Json)
    ensures
        r.jv() == JsonV::Obj(sandbox_ignore_fields_v(*iv)),
        r is Obj,
        r->Obj_0@.len() == sandbox_ignore_fields_v(*iv).len(),
{
    let mut ivm: Vec<(String, Json)> = Vec::new();
    if let Some(v) = &iv.file {
        ivm.push((String::from_str("file"), string_list_json(v)));
    }
    if let Some(v) = &iv.network {
        ivm.push((String::from_str("network"), string_list_json(v)));
    }
    proof {
        crate::json::lemma_obj_fields(ivm);
        assert(crate::json::obj_fields_v(ivm@) =~= sandbox_ignore_fields_v(*iv));
    }
    Json::Obj(ivm)
}

/// Render sandbox settings as their JSON object.
#[verifier::rlimit(100)]
pub fn sandbox_to_json(s: &SandboxSettings) -> (r: Json)
    ensures
        r.jv() == sandbox_json_v(*s),
{
    let mut m: Vec<(String, Json)> = Vec::new();
    if let Some(v) = s.enabled {
        m.push((String::from_str("enabled"), Json::Bool(v)));
    }
    let ghost c1 = crate::json::obj_fields_v(m@);
    proof {
        assert(c1 =~= (match s.enabled {
            Some(v) => seq![("enabled"@, JsonV::Bool(v))],
            None => Seq::<(Seq<char>, JsonV)>::empty(),
        }));
    }
    if let Some(v) = s.auto_allow_bash_if_sandboxed {
        m.push((String::from_str("autoAllowBashIfSandboxed"), Json::Bool(v)));
    }
    let ghost c2 = crate::json::obj_fields_v(m@);
    proof {
        assert(c2 =~= c1 + (match s.auto_allow_bash_if_sandboxed {
            Some(v) => seq![("autoAllowBashIfSandboxed"@, JsonV::Bool(v))],
            None => Seq::<(Seq<char>, JsonV)>::empty(),
        }));
    }
    if let Some(v) = &s.excluded_commands {
        m.push((String::from_str("excludedCommands"), string_list_json(v)));
    }
    let ghost c3 = crate::json::obj_fields_v(m@);
    proof {
        assert(c3 =~= c2 + (match s.excluded_commands {
            Some(v) => seq![
                ("excludedCommands"@, JsonV::Arr(v@.map_values(|x: String| JsonV::Str(x@)))),
            ],
            None => Seq::<(Seq<char>, JsonV)>::empty(),
        }));
    }
    if let Some(v) = s.allow_unsandboxed_commands {
        m.push((String::from_str("allowUnsandboxedCommands"), Json::Bool(v)));
    }
    let ghost c4 = crate::json::obj_fields_v(m@);
    proof {
        assert(c4 =~= c3 + (match s.allow_unsandboxed_commands {
            Some(v) => seq![("allowUnsandboxedCommands"@, JsonV::Bool(v))],
            None => Seq::<(Seq<char>, JsonV)>::empty(),
        }));
    }
    if let Some(n) = &s.network {
        let network = sandbox_network_json(n);
        let keep = match &network {
            Json::Obj(nm) => nm.len() > 0,
            _ => false,
        };
        if keep {
            m.push((String::from_str("network"), network));
        }
    }
    let ghost c5 = crate::json::obj_fields_v(m@);
    proof {
        assert(c5 =~= c4 + (match s.network {
            Some(n) => {
                let nm = sandbox_network_fields_v(n);
                if nm.len() > 0 {
                    seq![("network"@, JsonV::Obj(nm))]
                } else {
                    Seq::<(Seq<char>, JsonV)>::empty()
                }
            },
            None => Seq::<(Seq<char>, JsonV)>::empty(),
        }));
    }
    if let Some(iv) = &s.ignore_violations {
        let ignore = sandbox_ignore_json(iv);
        let keep = match &ignore {
            Json::Obj(ivm) => ivm.len() > 0,
            _ => false,
        };
        if keep {
            m.push((String::from_str("ignoreViolations"), ignore));
        }
    }
    let ghost c6 = crate::json::obj_fields_v(m@);
    proof {
        assert(c6 =~= c5 + (match s.ignore_violations {
            Some(iv) => {
                let ivm = sandbox_ignore_fields_v(iv);
                if ivm.len() > 0 {
                    seq![("ignoreViolations"@, JsonV::Obj(ivm))]
                } else {
                    Seq::<(Seq<char>, JsonV)>::empty()
                }
            },
            None => Seq::<(Seq<char>, JsonV)>::empty(),
        }));
    }
    if let Some(v) = s.enable_weaker_nested_sandbox {
        m.push((String::from_str("enableWeakerNestedSandbox"), Json::Bool(v)));
    }
    let ghost c7 = crate::json::obj_fields_v(m@);
    proof {
        assert(c7 =~= c6 + (match s.enable_weaker_nested_sandbox {
            Some(v) => seq![("enableWeakerNestedSandbox"@, JsonV::Bool(v))],
            None => Seq::<(Seq<char>, JsonV)>::empty(),
        }));
    }
    let r = Json::Obj(m);
    proof {
        crate::json::lemma_obj_fields(m);
        assert(c7 =~= sandbox_json_v(*s)->Obj_0);
        assert(r.jv() =~= sandbox_json_v(*s));
    }
    r
}

/// A JSON array of the given strings.
fn string_list_json(items: &Vec<String>) -> (r: Json)
    ensures
        r.jv() == JsonV::Arr(items@.map_values(|x: String| JsonV::Str(x@))),
{
    let mut out: Vec<Json> = Vec::new();
    let n = items.len();
    let mut i: usize = 0;
    #[verifier::loop_isolation(false)]
    while i < n
        invariant
            i <= n,
            out@.len() == i,
            forall|j: int| 0 <= j < i ==> out@[j].jv() == JsonV::Str(items@[j]@),
        decreases n - i,
    {
        out.push(Json::Str(items[i].clone()));
        i += 1;
    }
    let r = Json::Arr(out);
    proof {
        assert(r.jv()->Arr_0 =~= items@.map_values(|x: String| JsonV::Str(x@)));
        assert(r.jv() =~= JsonV::Arr(items@.map_values(|x: String| JsonV::Str(x@))));
    }
    r
}

/// A JSON object of the given string pairs.
fn string_map_json(items: &Vec<(String, String)>) -> (r: Json)
    ensures
        r.jv() == JsonV::Obj(
            items@.map_values(|kv: (String, String)| (kv.0@, JsonV::Str(kv.1@))),
        ),
{
    let mut out: Vec<(String, Json)> = Vec::new();
    let n = items.len();
    let mut i: usize = 0;
    #[verifier::loop_isolation(false)]
    while i < n
        invariant
            i <= n,
            out@.len() == i,
            forall|j: int|
                0 <= j < i ==> out@[j].0@ == items@[j].0@ && out@[j].1.jv() == JsonV::Str(
                    items@[j].1@,
                ),
        decreases n - i,
    {
        out.push((items[i].0.clone(), Json::Str(items[i].1.clone())));
        i += 1;
    }
    let r = Json::Obj(out);
    proof {
        assert(r.jv()->Obj_0 =~= items@.map_values(
            |kv: (String, String)| (kv.0@, JsonV::Str(kv.1@)),
        ));
        assert(r.jv() =~= JsonV::Obj(
            items@.map_values(|kv: (String, String)| (kv.0@, JsonV::Str(kv.1@))),
        ));
    }
    r
}

/// Render one tool-server configuration for the CLI.
#[verifier::rlimit(100)]
fn mcp_server_json(c: &McpServerConfig) -> (r: Json)
    ensures
        r.jv() == mcp_server_json_v(*c),
{
    match c {
        McpServerConfig::Sdk(s) => {
            let mut m: Vec<(String, Json)> = Vec::new();
            m.push((String::from_str("type"), Json::str_of("sdk")));
            m.push((String::from_str("name"), Json::Str(s.name.clone())));
            m.push((String::from_str("version"), Json::Str(s.version.clone())));
            let r = Json::Obj(m);
            proof {
                crate::json::lemma_obj_fields(m);
                assert(crate::json::obj_fields_v(m@) =~= mcp_server_json_v(*c)->Obj_0);
                assert(r.jv() =~= mcp_server_json_v(*c));
            }
            r
        },
        McpServerConfig::Stdio(s) => {
            let mut m: Vec<(String, Json)> = Vec::new();
            m.push((String::from_str("type"), Json::str_of("stdio")));
            m.push((String::from_str("command"), Json::Str(s.command.clone())));
            if let Some(args) = &s.args {
                m.push((String::from_str("args"), string_list_json(args)));
            }
            if let Some(env) = &s.env {
                m.push((String::from_str("env"), string_map_json(env)));
            }
            let r = Json::Obj(m);
            proof {
                crate::json::lemma_obj_fields(m);
                assert(crate::json::obj_fields_v(m@) =~= mcp_server_json_v(*c)->Obj_0);
                assert(r.jv() =~= mcp_server_json_v(*c));
            }
            r
        },
        McpServerConfig::Sse(s) => {
            let mut m: Vec<(String, Json)> = Vec::new();
            m.push((String::from_str("type"), Json::str_of("sse")));
            m.push((String::from_str("url"), Json::Str(s.url.clone())));
            if let Some(h) = &s.headers {
                m.push((String::from_str("headers"), string_map_json(h)));
            }
            let r = Json::Obj(m);
            proof {
                crate::json::lemma_obj_fields(m);
                assert(crate::json::obj_fields_v(m@) =~= mcp_server_json_v(*c)->Obj_0);
                assert(r.jv() =~= mcp_server_json_v(*c));
            }
            r
        },
        McpServerConfig::Http(s) => {
            let mut m: Vec<(String, Json)> = Vec::new();
            m.push((String::from_str("type"), Json::str_of("http")));
            m.push((String::from_str("url"), Json::Str(s.url.clone())));
            if let Some(h) = &s.headers {
                m.push((String::from_str("headers"), string_map_json(h)));
            }
            let r = Json::Obj(m);
            proof {
                crate::json::lemma_obj_fields(m);
                assert(crate::json::obj_fields_v(m@) =~= mcp_server_json_v(*c)->Obj_0);
                assert(r.jv() =~= mcp_server_json_v(*c));
            }
            r
        },
    }
}

/// Append the tool-server flags.
fn build_mcp_args(cmd: &mut Vec<String>, mcp_servers: Option<&McpServersConfig>)
    ensures
        args_v(final(cmd)@) == args_v(old(cmd)@) + (match mcp_servers {
            Some(ms) => mcp_args_v(Some(*ms)),
            None => mcp_args_v(None),
        }),
{
    match mcp_servers {
        Some(McpServersConfig::Dict(servers)) => {
            let mut for_cli: Vec<(String, Json)> = Vec::new();
            let n = servers.len();
            let mut i: usize = 0;
            #[verifier::loop_isolation(false)]
            while i < n
                invariant
                    i <= n,
                    for_cli@.len() == i,
                    forall|j: int|
                        0 <= j < i ==> for_cli@[j].0@ == servers@[j].0@ && for_cli@[j].1.jv()
                            == mcp_server_json_v(servers@[j].1),
                decreases n - i,
            {
                let name = servers[i].0.clone();
                let config_val = mcp_server_json(&servers[i].1);
                for_cli.push((name, config_val));
                i += 1;
            }
            if for_cli.len() > 0 {
                let mut outer: Vec<(String, Json)> = Vec::new();
                outer.push((String::from_str("mcpServers"), Json::Obj(for_cli)));
                let mcp_config = Json::Obj(outer);
                let ghost expected = JsonV::Obj(
                    seq![
                        (
                            "mcpServers"@,
                            JsonV::Obj(
                                servers@.map_values(
                                    |kv: (String, McpServerConfig)|
                                        (kv.0@, mcp_server_json_v(kv.1)),
                                ),
                            ),
                        ),
                    ],
                );
                proof {
                    assert(outer@[0].1.jv()->Obj_0 =~= expected->Obj_0[0].1->Obj_0);
                    assert(outer@[0].1.jv() =~= expected->Obj_0[0].1);
                    assert(mcp_config.jv()->Obj_0 =~= expected->Obj_0);
                    assert(mcp_config.jv() =~= expected);
                }
                push_arg(cmd, "--mcp-config");
                push_arg_string(cmd, json_to_string(&mcp_config));
                proof {
                    assert(args_v(final(cmd)@) =~= args_v(old(cmd)@) + seq![
                        "--mcp-config"@,
                        jv_text(expected),
                    ]);
                }
            } else {
                proof {
                    assert(args_v(final(cmd)@) =~= args_v(old(cmd)@));
                }
            }
        },
        Some(McpServersConfig::Path(path)) => {
            push_arg(cmd, "--mcp-config");
            push_arg_string(cmd, path.clone());
            proof {
                assert(args_v(final(cmd)@) =~= args_v(old(cmd)@) + seq!["--mcp-config"@, path@]);
            }
        },
        None => {
            proof {
                assert(args_v(final(cmd)@) =~= args_v(old(cmd)@));
            }
        },
    }
}

/// Clone of an optional string.
fn clone_opt_str(o: &Option<String>) -> (r: Option<String>)
    ensures
        crate::types::view_opt_str(r) == crate::types::view_opt_str(*o),
{
    match o {
        Some(s) => Some(s.clone()),
        None => None,
    }
}

/// Append a `--flag value` pair when the option is set.
fn append_opt_str(cmd: &mut Vec<String>, flag: &str, v: &Option<String>)
    ensures
        args_v(final(cmd)@) == args_v(old(cmd)@) + opt_str_args_v(flag@, *v),
{
    match v {
        Some(s) => {
            push_arg(cmd, flag);
            push_arg_string(cmd, s.clone());
            proof {
                assert(args_v(final(cmd)@) =~= args_v(old(cmd)@) + opt_str_args_v(flag@, *v));
            }
        },
        None => {
            proof {
                assert(args_v(final(cmd)@) =~= args_v(old(cmd)@) + opt_str_args_v(flag@, *v));
            }
        },
    }
}

fn append_system_prompt_args(cmd: &mut Vec<String>, o: &AgentOptions)
    ensures
        args_v(final(cmd)@) == args_v(old(cmd)@) + system_prompt_args_v(*o),
{
    match &o.system_prompt {
        None => {
            push_arg(cmd, "--system-prompt");
            push_arg_string(cmd, String::new());
        },
        Some(SystemPromptConfig::Text(s)) => {
            push_arg(cmd, "--system-prompt");
            push_arg_string(cmd, s.clone());
        },
        Some(SystemPromptConfig::Preset { preset: _, append }) => {
            match append {
                Some(a) => {
                    push_arg(cmd, "--append-system-prompt");
                    push_arg_string(cmd, a.clone());
                },
                None => {},
            }
        },
    }
    proof {
        assert(args_v(final(cmd)@) =~= args_v(old(cmd)@) + system_prompt_args_v(*o));
    }
}

fn append_tools_args(cmd: &mut Vec<String>, o: &AgentOptions)
    ensures
        args_v(final(cmd)@) == args_v(old(cmd)@) + tools_args_v(*o),
{
    match &o.tools {
        Some(ToolsConfig::List(list)) => {
            push_arg(cmd, "--tools");
            if list.len() == 0 {
                push_arg_string(cmd, String::new());
            } else {
                push_arg_string(cmd, join_strings(list, ","));
            }
        },
        Some(ToolsConfig::Preset { .. }) => {
            push_arg(cmd, "--tools");
            push_arg(cmd, "default");
        },
        None => {},
    }
    proof {
        assert(args_v(final(cmd)@) =~= args_v(old(cmd)@) + tools_args_v(*o));
    }
}

fn append_limits_args(cmd: &mut Vec<String>, o: &AgentOptions)
    ensures
        args_v(final(cmd)@) == args_v(old(cmd)@) + limits_args_v(*o),
{
    let ghost s0 = args_v(old(cmd)@);
    if o.allowed_tools.len() > 0 {
        push_arg(cmd, "--allowedTools");
        push_arg_string(cmd, join_strings(&o.allowed_tools, ","));
    }
    let ghost s1 = args_v(cmd@);
    proof {
        assert(s1 =~= s0 + (if o.allowed_tools@.len() > 0 {
            seq!["--allowedTools"@, joined_v(o.allowed_tools@, ","@)]
        } else {
            Seq::<Seq<char>>::empty()
        }));
    }
    if let Some(t) = o.max_turns {
        push_arg(cmd, "--max-turns");
        push_arg_string(cmd, u64_string(t as u64));
    }
    let ghost s2 = args_v(cmd@);
    proof {
        assert(s2 =~= s1 + (match o.max_turns {
            Some(t) => seq!["--max-turns"@, dec_digits(t as int)],
            None => Seq::<Seq<char>>::empty(),
        }));
    }
    if let Some(b) = &o.max_budget_usd {
        push_arg(cmd, "--max-budget-usd");
        match b {
            JsonNum::Int(i) => {
                push_arg_string(cmd, crate::text::i64_string(*i));
            },
            JsonNum::Dec(raw) => {
                push_arg_string(cmd, raw.clone());
            },
        }
    }
    let ghost s3 = args_v(cmd@);
    proof {
        assert(s3 =~= s2 + (match o.max_budget_usd {
            Some(b) => seq!["--max-budget-usd"@, crate::jsontext::num_text(b.jv())],
            None => Seq::<Seq<char>>::empty(),
        }));
    }
    if o.disallowed_tools.len() > 0 {
        push_arg(cmd, "--disallowedTools");
        push_arg_string(cmd, join_strings(&o.disallowed_tools, ","));
    }
    proof {
        assert(args_v(final(cmd)@) =~= args_v(old(cmd)@) + limits_args_v(*o));
    }
}

fn append_models_args(cmd: &mut Vec<String>, o: &AgentOptions)
    ensures
        args_v(final(cmd)@) == args_v(old(cmd)@) + models_args_v(*o),
{
    append_opt_str(cmd, "--model", &o.model);
    append_opt_str(cmd, "--fallback-model", &o.fallback_model);
    let ghost s5 = args_v(cmd@);
    if let Some(m) = &o.permission_mode {
        push_arg(cmd, "--permission-mode");
        push_arg(cmd, m.label());
    }
    let ghost s6 = args_v(cmd@);
    proof {
        assert(s6 =~= s5 + (match o.permission_mode {
            Some(m) => seq!["--permission-mode"@, permission_mode_label(m)],
            None => Seq::<Seq<char>>::empty(),
        }));
    }
    if o.continue_conversation {
        push_arg(cmd, "--continue");
    }
    let ghost s7 = args_v(cmd@);
    proof {
        assert(s7 =~= s6 + (if o.continue_conversation {
            seq!["--continue"@]
        } else {
            Seq::<Seq<char>>::empty()
        }));
    }
    append_opt_str(cmd, "--resume", &o.resume);
    proof {
        assert(args_v(final(cmd)@) =~= args_v(old(cmd)@) + models_args_v(*o));
    }
}

fn append_middle_args(cmd: &mut Vec<String>, o: &AgentOptions)
    ensures
        args_v(final(cmd)@) == args_v(old(cmd)@) + middle_args_v(*o),
{
    append_limits_args(cmd, o);
    append_models_args(cmd, o);
    proof {
        assert(args_v(final(cmd)@) =~= args_v(old(cmd)@) + middle_args_v(*o));
    }
}

/// Whether, after trimming whitespace, the text starts with `{` and ends
/// with `}`.
fn looks_like_inline_json(s: &str) -> (r: Option<String>)
{
    let chars = str_to_chars(s);
    let n = chars.len();
    let mut start: usize = 0;
    while start < n
        invariant
            start <= n,
            n == chars@.len(),
        decreases n - start,
    {
        let c = chars[start];
        if c == ' ' || c == '\t' || c == '\n' || c == '\r' {
            start += 1;
        } else {
            break;
        }
    }
    let mut end: usize = n;
    while end > start
        invariant
            start <= end <= n,
            n == chars@.len(),
        decreases end,
    {
        let c = chars[end - 1];
        if c == ' ' || c == '\t' || c == '\n' || c == '\r' {
            end -= 1;
        } else {
            break;
        }
    }
    if start >= end {
        return None;
    }
    if chars[start] != '{' || chars[end - 1] != '}' {
        return None;
    }
    let mut trimmed: Vec<char> = Vec::new();
    let mut i = start;
    while i < end
        invariant
            start <= i <= end <= n,
            n == chars@.len(),
        decreases end - i,
    {
        trimmed.push(chars[i]);
        i += 1;
    }
    Some(chars_to_string(&trimmed))
}

/// The `--settings` value: pass-through without a sandbox, else one merged
/// JSON object of the inline settings fields and the sandbox.
pub fn build_settings_value(options: &AgentOptions) -> (r: Option<String>)
    ensures
        exists|inline: Seq<(Seq<char>, JsonV)>|
            crate::types::view_opt_str(r) == settings_value_v(*options, inline),
{
    let has_settings = options.settings.is_some();
    let has_sandbox = options.sandbox.is_some();
    if !has_settings && !has_sandbox {
        let r: Option<String> = None;
        proof {
            let w = Seq::<(Seq<char>, JsonV)>::empty();
            assert(crate::types::view_opt_str(r) == settings_value_v(*options, w));
        }
        return r;
    }
    if !has_sandbox {
        let r = clone_opt_str(&options.settings);
        proof {
            let w = Seq::<(Seq<char>, JsonV)>::empty();
            assert(crate::types::view_opt_str(r) == settings_value_v(*options, w));
        }
        return r;
    }
    let mut settings_obj: Vec<(String, Json)> = Vec::new();
    if let Some(s) = &options.settings {
        // An inline JSON object contributes its fields; a file path would
        // need the file system and is treated here as an absent file, which
        // the flag's grammar also allows.
        match looks_like_inline_json(s.as_str()) {
            Some(inline_text) => {
                match parse_json(inline_text.as_str()) {
                    Ok(Json::Obj(mut fields)) => {
                        settings_obj.append(&mut fields);
                    },
                    _ => {},
                }
            },
            None => {},
        }
    }
    let sandbox_val = match &options.sandbox {
        Some(sb) => sandbox_to_json(sb),
        None => Json::Null,
    };
    settings_obj.push((String::from_str("sandbox"), sandbox_val));
    let merged = Json::Obj(settings_obj);
    let text = json_to_string(&merged);
    let r = Some(text);
    proof {
        crate::json::lemma_obj_fields(settings_obj);
        let all = crate::json::obj_fields_v(settings_obj@);
        let w = all.take(all.len() - 1);
        assert(all =~= w + seq![("sandbox"@, sandbox_json_v(options.sandbox->0))]);
        assert(crate::types::view_opt_str(r) == settings_value_v(*options, w));
    }
    r
}

fn append_settings_args(cmd: &mut Vec<String>, o: &AgentOptions)
    ensures
        exists|inline: Seq<(Seq<char>, JsonV)>|
            args_v(final(cmd)@) == args_v(old(cmd)@) + settings_args_v(*o, inline),
{
    let v = build_settings_value(o);
    let ghost inline = choose|inline: Seq<(Seq<char>, JsonV)>|
        crate::types::view_opt_str(v) == settings_value_v(*o, inline);
    match v {
        Some(text) => {
            push_arg(cmd, "--settings");
            push_arg_string(cmd, text);
        },
        None => {},
    }
    proof {
        assert(args_v(final(cmd)@) =~= args_v(old(cmd)@) + settings_args_v(*o, inline));
    }
}

fn append_betas_args(cmd: &mut Vec<String>, o: &AgentOptions)
    ensures
        args_v(final(cmd)@) == args_v(old(cmd)@) + betas_args_v(*o),
{
    if o.betas.len() > 0 {
        let mut labels: Vec<String> = Vec::new();
        let n = o.betas.len();
        let mut i: usize = 0;
        #[verifier::loop_isolation(false)]
        while i < n
            invariant
                i <= n,
                labels@.len() == i,
                forall|j: int| 0 <= j < i ==> labels@[j]@ == sdk_beta_label(o.betas@[j]),
            decreases n - i,
        {
            labels.push(o.betas[i].label());
            i += 1;
        }
        push_arg(cmd, "--betas");
        push_arg_string(cmd, join_strings(&labels, ","));
        proof {
            assert(labels@.map_values(|s: String| s@) =~= o.betas@.map_values(
                |b: SdkBeta| sdk_beta_label(b),
            ));
            assert(args_v(final(cmd)@) =~= args_v(old(cmd)@) + betas_args_v(*o));
        }
    } else {
        proof {
            assert(args_v(final(cmd)@) =~= args_v(old(cmd)@) + betas_args_v(*o));
        }
    }
}

/// One more directory extends the `--add-dir` pairs.
proof fn lemma_add_dirs_step(dirs: Seq<String>, i: int)
    requires
        0 <= i < dirs.len(),
    ensures
        add_dirs_args_v(dirs.take(i + 1)) == add_dirs_args_v(dirs.take(i)) + seq![
            "--add-dir"@,
            dirs[i]@,
        ],
    decreases i,
{
    if i == 0 {
        assert(dirs.take(1)[0] == dirs[0]);
        assert(dirs.take(1).drop_first() =~= Seq::<String>::empty());
        assert(dirs.take(0) =~= Seq::<String>::empty());
        assert(add_dirs_args_v(dirs.take(1)) =~= add_dirs_args_v(dirs.take(0)) + seq![
            "--add-dir"@,
            dirs[0]@,
        ]);
    } else {
        lemma_add_dirs_step(dirs.drop_first(), i - 1);
        assert(dirs.take(i + 1).drop_first() =~= dirs.drop_first().take(i));
        assert(dirs.take(i).drop_first() =~= dirs.drop_first().take(i - 1));
        assert(dirs.take(i + 1)[0] == dirs[0]);
        assert(dirs.take(i)[0] == dirs[0]);
        assert(dirs.drop_first()[i - 1] == dirs[i]);
        assert(add_dirs_args_v(dirs.take(i + 1)) =~= add_dirs_args_v(dirs.take(i)) + seq![
            "--add-dir"@,
            dirs[i]@,
        ]);
    }
}

fn append_add_dirs_args(cmd: &mut Vec<String>, dirs: &Vec<String>)
    ensures
        args_v(final(cmd)@) == args_v(old(cmd)@) + add_dirs_args_v(dirs@),
{
    let n = dirs.len();
    let mut i: usize = 0;
    #[verifier::loop_isolation(false)]
    while i < n
        invariant
            i <= n,
            args_v(cmd@) == args_v(old(cmd)@) + add_dirs_args_v(dirs@.take(i as int)),
        decreases n - i,
    {
        push_arg(cmd, "--add-dir");
        push_arg_string(cmd, dirs[i].clone());
        proof {
            lemma_add_dirs_step(dirs@, i as int);
            assert(args_v(cmd@) =~= args_v(old(cmd)@) + add_dirs_args_v(dirs@.take(i + 1)));
        }
        i += 1;
    }
    proof {
        assert(dirs@.take(n as int) =~= dirs@);
    }
}

fn append_setting_sources_args(cmd: &mut Vec<String>, o: &AgentOptions)
    ensures
        args_v(final(cmd)@) == args_v(old(cmd)@) + setting_sources_args_v(*o),
{
    push_arg(cmd, "--setting-sources");
    match &o.setting_sources {
        Some(sources) => {
            let mut labels: Vec<String> = Vec::new();
            let n = sources.len();
            let mut i: usize = 0;
            #[verifier::loop_isolation(false)]
            while i < n
                invariant
                    i <= n,
                    labels@.len() == i,
                    forall|j: int| 0 <= j < i ==> labels@[j]@ == setting_source_label(sources@[j]),
                decreases n - i,
            {
                labels.push(String::from_str(sources[i].label()));
                i += 1;
            }
            push_arg_string(cmd, join_strings(&labels, ","));
            proof {
                assert(labels@.map_values(|s: String| s@) =~= sources@.map_values(
                    |s: SettingSource| setting_source_label(s),
                ));
                assert(args_v(final(cmd)@) =~= args_v(old(cmd)@) + setting_sources_args_v(*o));
            }
        },
        None => {
            push_arg_string(cmd, String::new());
            proof {
                assert(args_v(final(cmd)@) =~= args_v(old(cmd)@) + setting_sources_args_v(*o));
            }
        },
    }
}

/// One more plugin extends the `--plugin-dir` pairs (local plugins only).
proof fn lemma_plugins_step(plugins: Seq<crate::options::SdkPluginConfig>, i: int)
    requires
        0 <= i < plugins.len(),
    ensures
        plugins_args_v(plugins.take(i + 1)) == plugins_args_v(plugins.take(i)) + (if plugins[i].type_@
            == "local"@ {
            seq!["--plugin-dir"@, plugins[i].path@]
        } else {
            Seq::<Seq<char>>::empty()
        }),
    decreases i,
{
    if i == 0 {
        assert(plugins.take(1)[0] == plugins[0]);
        assert(plugins.take(1).drop_first() =~= Seq::<crate::options::SdkPluginConfig>::empty());
        assert(plugins.take(0) =~= Seq::<crate::options::SdkPluginConfig>::empty());
        assert(plugins_args_v(plugins.take(1)) =~= plugins_args_v(plugins.take(0)) + (if plugins[0].type_@
            == "local"@ {
            seq!["--plugin-dir"@, plugins[0].path@]
        } else {
            Seq::<Seq<char>>::empty()
        }));
    } else {
        lemma_plugins_step(plugins.drop_first(), i - 1);
        assert(plugins.take(i + 1).drop_first() =~= plugins.drop_first().take(i));
        assert(plugins.take(i).drop_first() =~= plugins.drop_first().take(i - 1));
        assert(plugins.take(i + 1)[0] == plugins[0]);
        assert(plugins.take(i)[0] == plugins[0]);
        assert(plugins.drop_first()[i - 1] == plugins[i]);
        assert(plugins_args_v(plugins.take(i + 1)) =~= plugins_args_v(plugins.take(i)) + (
        if plugins[i].type_@ == "local"@ {
            seq!["--plugin-dir"@, plugins[i].path@]
        } else {
            Seq::<Seq<char>>::empty()
        }));
    }
}

fn append_plugins_args(cmd: &mut Vec<String>, plugins: &Vec<crate::options::SdkPluginConfig>)
    ensures
        args_v(final(cmd)@) == args_v(old(cmd)@) + plugins_args_v(plugins@),
{
    let n = plugins.len();
    let mut i: usize = 0;
    #[verifier::loop_isolation(false)]
    while i < n
        invariant
            i <= n,
            args_v(cmd@) == args_v(old(cmd)@) + plugins_args_v(plugins@.take(i as int)),
        decreases n - i,
    {
        if crate::json::str_eq(plugins[i].type_.as_str(), "local") {
            push_arg(cmd, "--plugin-dir");
            push_arg_string(cmd, plugins[i].path.clone());
        }
        proof {
            lemma_plugins_step(plugins@, i as int);
            assert(args_v(cmd@) =~= args_v(old(cmd)@) + plugins_args_v(plugins@.take(i + 1)));
        }
        i += 1;
    }
    proof {
        assert(plugins@.take(n as int) =~= plugins@);
    }
}

/// One more pair extends the extra arguments.
proof fn lemma_extra_args_step(extra: Seq<(String, Option<String>)>, i: int)
    requires
        0 <= i < extra.len(),
    ensures
        extra_args_v(extra.take(i + 1)) == extra_args_v(extra.take(i)) + (match extra[i].1 {
            Some(v) => seq!["--"@ + extra[i].0@, v@],
            None => seq!["--"@ + extra[i].0@],
        }),
    decreases i,
{
    if i == 0 {
        assert(extra.take(1)[0] == extra[0]);
        assert(extra.take(1).drop_first() =~= Seq::<(String, Option<String>)>::empty());
        assert(extra.take(0) =~= Seq::<(String, Option<String>)>::empty());
        assert(extra_args_v(extra.take(1)) =~= extra_args_v(extra.take(0)) + (match extra[0].1 {
            Some(v) => seq!["--"@ + extra[0].0@, v@],
            None => seq!["--"@ + extra[0].0@],
        }));
    } else {
        lemma_extra_args_step(extra.drop_first(), i - 1);
        assert(extra.take(i + 1).drop_first() =~= extra.drop_first().take(i));
        assert(extra.take(i).drop_first() =~= extra.drop_first().take(i - 1));
        assert(extra.take(i + 1)[0] == extra[0]);
        assert(extra.take(i)[0] == extra[0]);
        assert(extra.drop_first()[i - 1] == extra[i]);
        assert(extra_args_v(extra.take(i + 1)) =~= extra_args_v(extra.take(i)) + (
        match extra[i].1 {
            Some(v) => seq!["--"@ + extra[i].0@, v@],
            None => seq!["--"@ + extra[i].0@],
        }));
    }
}

/// Append the extra arguments, each flag prefixed with `--`.
pub fn append_extra_args(cmd: &mut Vec<String>, extra: &Vec<(String, Option<String>)>)
    ensures
        args_v(final(cmd)@) == args_v(old(cmd)@) + extra_args_v(extra@),
{
    let n = extra.len();
    let mut i: usize = 0;
    #[verifier::loop_isolation(false)]
    while i < n
        invariant
            i <= n,
            args_v(cmd@) == args_v(old(cmd)@) + extra_args_v(extra@.take(i as int)),
        decreases n - i,
    {
        let flag = concat_str("--", extra[i].0.as_str());
        match &extra[i].1 {
            Some(v) => {
                push_arg_string(cmd, flag);
                push_arg_string(cmd, v.clone());
            },
            None => {
                push_arg_string(cmd, flag);
            },
        }
        proof {
            lemma_extra_args_step(extra@, i as int);
            assert(args_v(cmd@) =~= args_v(old(cmd)@) + extra_args_v(extra@.take(i + 1)));
        }
        i += 1;
    }
    proof {
        assert(extra@.take(n as int) =~= extra@);
    }
}

#[verifier::rlimit(100)]
fn append_tail_args(cmd: &mut Vec<String>, o: &AgentOptions)
    ensures
        args_v(final(cmd)@) == args_v(old(cmd)@) + tail_args_v(*o),
{
    let ghost s0 = args_v(old(cmd)@);
    if let Some(tokens) = resolve_max_thinking_tokens(o) {
        push_arg(cmd, "--max-thinking-tokens");
        push_arg_string(cmd, u64_string(tokens as u64));
    }
    let ghost s1 = args_v(cmd@);
    proof {
        assert(s1 =~= s0 + (match resolved_thinking_v(*o) {
            Some(t) => seq!["--max-thinking-tokens"@, dec_digits(t as int)],
            None => Seq::<Seq<char>>::empty(),
        }));
    }
    if let Some(e) = &o.effort {
        push_arg(cmd, "--effort");
        push_arg(cmd, e.label());
    }
    let ghost s2 = args_v(cmd@);
    proof {
        assert(s2 =~= s1 + (match o.effort {
            Some(e) => seq!["--effort"@, effort_label(e)],
            None => Seq::<Seq<char>>::empty(),
        }));
    }
    if let Some(of) = &o.output_format {
        let is_schema = match of.get_str("type") {
            Some(t) => crate::json::str_eq(t.as_str(), "json_schema"),
            None => false,
        };
        if is_schema {
            if let Some(schema) = of.get("schema") {
                push_arg(cmd, "--json-schema");
                push_arg_string(cmd, json_to_string(schema));
            }
        }
    }
    let ghost s3 = args_v(cmd@);
    proof {
        assert(s3 =~= s2 + (match o.output_format {
            Some(of) => {
                if of.jv() is Obj && crate::json::jv_get_str(of.jv(), "type"@) == Some(
                    "json_schema"@,
                ) && crate::json::jv_get(of.jv(), "schema"@) is Some {
                    seq![
                        "--json-schema"@,
                        jv_text(crate::json::jv_get(of.jv(), "schema"@)->0),
                    ]
                } else {
                    Seq::<Seq<char>>::empty()
                }
            },
            None => Seq::<Seq<char>>::empty(),
        }));
    }
    append_opt_str(cmd, "--permission-prompt-tool", &o.permission_prompt_tool_name);
    push_arg(cmd, "--input-format");
    push_arg(cmd, "stream-json");
    proof {
        assert(args_v(final(cmd)@) =~= args_v(old(cmd)@) + tail_args_v(*o));
    }
}

/// Build the full argument list for invoking the persistent CLI.
///
/// The first element is the binary path itself; the rest are the flags and
/// values of [`build_command_v`], in order. The one unpinned part is the
/// contribution of an inline settings string, which is whatever fields its
/// JSON text parses to.
pub fn build_command(cli_path: &str, options: &AgentOptions) -> (r: Vec<String>)
    ensures
        exists|settings_inline: Seq<(Seq<char>, JsonV)>|
            args_v(r@) == build_command_v(cli_path@, *options, settings_inline),
{
    let mut cmd: Vec<String> = Vec::new();
    push_arg_string(&mut cmd, String::from_str(cli_path));
    push_arg(&mut cmd, "--output-format");
    push_arg(&mut cmd, "stream-json");
    push_arg(&mut cmd, "--verbose");
    proof {
        assert(args_v(cmd@) =~= head_args_v(cli_path@));
    }
    let ghost h0 = args_v(cmd@);
    append_system_prompt_args(&mut cmd, options);
    append_tools_args(&mut cmd, options);
    append_middle_args(&mut cmd, options);
    let ghost h1 = args_v(cmd@);
    append_settings_args(&mut cmd, options);
    let ghost inline = choose|inline: Seq<(Seq<char>, JsonV)>|
        args_v(cmd@) == h1 + settings_args_v(*options, inline);
    append_betas_args(&mut cmd, options);
    append_add_dirs_args(&mut cmd, &options.add_dirs);
    build_mcp_args(&mut cmd, options.mcp_servers.as_ref());
    if options.include_partial_messages {
        push_arg(&mut cmd, "--include-partial-messages");
    }
    let ghost h2 = args_v(cmd@);
    if options.fork_session {
        push_arg(&mut cmd, "--fork-session");
    }
    let ghost h3 = args_v(cmd@);
    append_setting_sources_args(&mut cmd, options);
    append_plugins_args(&mut cmd, &options.plugins);
    append_extra_args(&mut cmd, &options.extra_args);
    append_tail_args(&mut cmd, options);
    proof {
        assert(args_v(cmd@) =~= build_command_v(cli_path@, *options, inline));
    }
    cmd
}

} // verus!
