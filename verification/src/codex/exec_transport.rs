//! The app-server backend's one-shot `exec` mode: its argument builder and
//! the decision that closes a run from the process's exit status.

use vstd::prelude::*;

use crate::control::command_builder::{args_v, extra_args_v};
use crate::error::Error;
use crate::options::AgentOptions;
use crate::text::concat_str;
use crate::types::{view_opt_str, Message, MessageV, ResultMessage, ResultMessageV};

verus! {

/// The `-c` configuration pair an approval policy renders to.
pub open spec fn approval_policy_args_v(policy: Option<String>) -> Seq<Seq<char>> {
    match policy {
        Some(p) => seq!["-c"@, "approval_policy=\""@ + p@ + "\""@],
        None => Seq::empty(),
    }
}

/// The `-c` configuration pair a sandbox mode renders to: a fixed
/// permission list per mode, nothing for read-only or unknown modes.
pub open spec fn sandbox_mode_args_v(mode: Option<String>) -> Seq<Seq<char>> {
    match mode {
        Some(m) => if m@ == "workspace-write"@ {
            seq![
                "-c"@,
                "sandbox_permissions=[\"disk-full-read-access\", \"disk-write-cwd\"]"@,
            ]
        } else if m@ == "danger-full-access"@ {
            seq![
                "-c"@,
                "sandbox_permissions=[\"disk-full-read-access\", \"disk-full-write-access\", \"network-full-access\"]"@,
            ]
        } else {
            Seq::empty()
        },
        None => Seq::empty(),
    }
}

/// The full one-shot argument list: binary, `exec --json`, model, backend
/// configuration, extra arguments, and the prompt last.
pub open spec fn exec_command_v(cli_path: Seq<char>, prompt: Seq<char>, o: AgentOptions) -> Seq<
    Seq<char>,
> {
    seq![cli_path, "exec"@, "--json"@] + (match o.model {
        Some(m) => seq!["--model"@, m@],
        None => Seq::empty(),
    }) + (match o.codex {
        Some(c) => approval_policy_args_v(c.approval_policy) + sandbox_mode_args_v(c.sandbox_mode),
        None => Seq::empty(),
    }) + extra_args_v(o.extra_args@) + seq![prompt]
}

/// Build the argument list for a one-shot query.
///
/// The first element is the binary path; the prompt is always last.
pub fn build_exec_command(cli_path: &str, prompt: &str, options: &AgentOptions) -> (r: Vec<String>)
    ensures
        args_v(r@) == exec_command_v(cli_path@, prompt@, *options),
{
    let mut cmd: Vec<String> = Vec::new();
    cmd.push(String::from_str(cli_path));
    cmd.push(String::from_str("exec"));
    cmd.push(String::from_str("--json"));
    proof {
        assert(args_v(cmd@) =~= seq![cli_path@, "exec"@, "--json"@]);
    }
    let ghost s0 = args_v(cmd@);
    if let Some(m) = &options.model {
        cmd.push(String::from_str("--model"));
        cmd.push(m.clone());
    }
    let ghost s1 = args_v(cmd@);
    proof {
        assert(s1 =~= s0 + (match options.model {
            Some(m) => seq!["--model"@, m@],
            None => Seq::<Seq<char>>::empty(),
        }));
    }
    if let Some(c) = &options.codex {
        if let Some(policy) = &c.approval_policy {
            let head = concat_str("approval_policy=\"", policy.as_str());
            let arg = concat_str(head.as_str(), "\"");
            cmd.push(String::from_str("-c"));
            cmd.push(arg);
        }
        let ghost s2 = args_v(cmd@);
        proof {
            assert(s2 =~= s1 + approval_policy_args_v(c.approval_policy));
        }
        if let Some(mode) = &c.sandbox_mode {
            if crate::json::str_eq(mode.as_str(), "workspace-write") {
                cmd.push(String::from_str("-c"));
                cmd.push(
                    String::from_str(
                        "sandbox_permissions=[\"disk-full-read-access\", \"disk-write-cwd\"]",
                    ),
                );
            } else if crate::json::str_eq(mode.as_str(), "danger-full-access") {
                cmd.push(String::from_str("-c"));
                cmd.push(
                    String::from_str(
                        "sandbox_permissions=[\"disk-full-read-access\", \"disk-full-write-access\", \"network-full-access\"]",
                    ),
                );
            }
        }
        proof {
            assert(args_v(cmd@) =~= s2 + sandbox_mode_args_v(c.sandbox_mode));
        }
    }
    let ghost s3 = args_v(cmd@);
    proof {
        assert(s3 =~= s1 + (match options.codex {
            Some(c) => approval_policy_args_v(c.approval_policy) + sandbox_mode_args_v(
                c.sandbox_mode,
            ),
            None => Seq::<Seq<char>>::empty(),
        }));
    }
    crate::control::command_builder::append_extra_args(&mut cmd, &options.extra_args);
    cmd.push(String::from_str(prompt));
    proof {
        assert(args_v(cmd@) =~= exec_command_v(cli_path@, prompt@, *options));
    }
    cmd
}

/// What closes a one-shot run, decided from the process's exit status: a
/// zero exit yields the synthetic success result that ends the turn's
/// stream; a non-zero exit surfaces the code and any captured stderr.
pub fn exec_completion_message(exit_code: i32, stderr: Option<String>) -> (r: Result<
    Message,
    Error,
>)
    ensures
        exit_code == 0 ==> (r matches Ok(m) && m.dv() == MessageV::Result(
            ResultMessageV {
                subtype: "success"@,
                duration_ms: 0,
                duration_api_ms: 0,
                is_error: false,
                num_turns: 1,
                session_id: Seq::empty(),
                total_cost_usd: None,
                usage: None,
                result: None,
                structured_output: None,
            },
        )),
        exit_code != 0 ==> (r matches Err(Error::Process { exit_code: c, stderr: s }) && c
            == exit_code && view_opt_str(s) == view_opt_str(stderr)),
{
    if exit_code == 0 {
        Ok(
            Message::Result(
                ResultMessage {
                    subtype: String::from_str("success"),
                    duration_ms: 0,
                    duration_api_ms: 0,
                    is_error: false,
                    num_turns: 1,
                    session_id: String::new(),
                    total_cost_usd: None,
                    usage: None,
                    result: None,
                    structured_output: None,
                },
            ),
        )
    } else {
        Err(Error::Process { exit_code, stderr })
    }
}

} // verus!
