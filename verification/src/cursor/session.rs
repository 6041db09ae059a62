//! The spawn-per-turn session state machine.
//!
//! No persistent process exists: each turn spawns one. The machine enforces
//! one active turn at a time, captures the session identifier from the first
//! turn's own output at most once, and resumes every later turn with it. A
//! second turn attempted before the identifier has been observed fails
//! rather than proceed without continuity.

use vstd::prelude::*;

use crate::control::command_builder::{args_v, extra_args_v};
use crate::error::Error;
use crate::json::{jv_get_str, Json, JsonV};
use crate::options::AgentOptions;
use crate::types::view_opt_str;

verus! {

/// The per-turn session state: the captured identifier, whether any turn
/// has been started, and whether one is still running.
#[derive(Debug)]
pub struct CursorTurnState {
    pub chat_id: Option<String>,
    pub has_started_turn: bool,
    pub turn_running: bool,
}

/// The argument list of one turn: print mode, a resume flag once the
/// identifier is known, model, backend options, extra arguments, the prompt
/// last.
pub open spec fn turn_args_v(
    prompt: Seq<char>,
    chat_id: Option<Seq<char>>,
    o: AgentOptions,
) -> Seq<Seq<char>> {
    seq!["--print"@, "--output-format"@, "stream-json"@] + (match chat_id {
        Some(id) => seq!["--resume"@, id],
        None => Seq::empty(),
    }) + (match o.model {
        Some(m) => seq!["--model"@, m@],
        None => Seq::empty(),
    }) + (match o.cursor {
        Some(c) => (if c.force_approve {
            seq!["--force"@]
        } else {
            Seq::empty()
        }) + (match c.mode {
            Some(m) => seq!["--mode"@, m@],
            None => Seq::empty(),
        }) + (if c.trust_workspace {
            seq!["--trust"@]
        } else {
            Seq::empty()
        }),
        None => Seq::empty(),
    }) + extra_args_v(o.extra_args@) + seq![prompt]
}

/// The session identifier an event carries, if any: a `system` event names
/// it as `chatId` (or `session_id`); a `result` event as `session_id` (or
/// `chatId`); other events never carry one.
pub open spec fn extract_chat_id_v(j: JsonV) -> Option<Seq<char>> {
    if jv_get_str(j, "type"@) == Some("system"@) {
        match jv_get_str(j, "chatId"@) {
            Some(id) => Some(id),
            None => jv_get_str(j, "session_id"@),
        }
    } else if jv_get_str(j, "type"@) == Some("result"@) {
        match jv_get_str(j, "session_id"@) {
            Some(id) => Some(id),
            None => jv_get_str(j, "chatId"@),
        }
    } else {
        None
    }
}

impl CursorTurnState {
    /// A fresh session: no identifier, no turn yet.
    pub fn new() -> (r: Self)
        ensures
            r.chat_id is None,
            !r.has_started_turn,
            !r.turn_running,
    {
        CursorTurnState { chat_id: None, has_started_turn: false, turn_running: false }
    }

    /// Begin a turn: exactly one turn may run at a time, and a second turn
    /// before the first's identifier has been observed fails rather than
    /// proceed without continuity. On success the returned arguments
    /// include the resume flag exactly when the identifier is known.
    #[verifier::rlimit(100)]
    pub fn begin_turn(&mut self, prompt: &str, options: &AgentOptions) -> (r: Result<
        Vec<String>,
        Error,
    >)
        ensures
            old(self).turn_running ==> (r matches Err(Error::Other(m)) && m@
                == "Previous Cursor turn is still running. Wait for receive_response() to complete."@
                && *final(self) == *old(self)),
            !old(self).turn_running && old(self).has_started_turn && old(self).chat_id is None ==> (
            r matches Err(Error::Other(m)) && m@
                == "Cursor session id not available yet. Wait for the previous turn to emit init/result before sending the next message."@
                && *final(self) == *old(self)),
            !old(self).turn_running && (!old(self).has_started_turn || old(self).chat_id is Some)
                ==> (r matches Ok(args) && args_v(args@) == turn_args_v(
                prompt@,
                view_opt_str(old(self).chat_id),
                *options,
            ) && view_opt_str(final(self).chat_id) == view_opt_str(old(self).chat_id)
                && final(self).has_started_turn && final(self).turn_running),
    {
        if self.turn_running {
            return Err(
                Error::Other(
                    String::from_str(
                        "Previous Cursor turn is still running. Wait for receive_response() to complete.",
                    ),
                ),
            );
        }
        if self.has_started_turn && self.chat_id.is_none() {
            return Err(
                Error::Other(
                    String::from_str(
                        "Cursor session id not available yet. Wait for the previous turn to emit init/result before sending the next message.",
                    ),
                ),
            );
        }
        let mut args: Vec<String> = Vec::new();
        args.push(String::from_str("--print"));
        args.push(String::from_str("--output-format"));
        args.push(String::from_str("stream-json"));
        proof {
            assert(args_v(args@) =~= seq!["--print"@, "--output-format"@, "stream-json"@]);
        }
        let ghost s0 = args_v(args@);
        if let Some(id) = &self.chat_id {
            args.push(String::from_str("--resume"));
            args.push(id.clone());
        }
        let ghost s1 = args_v(args@);
        proof {
            assert(s1 =~= s0 + (match view_opt_str(self.chat_id) {
                Some(id) => seq!["--resume"@, id],
                None => Seq::<Seq<char>>::empty(),
            }));
        }
        if let Some(m) = &options.model {
            args.push(String::from_str("--model"));
            args.push(m.clone());
        }
        let ghost s2 = args_v(args@);
        proof {
            assert(s2 =~= s1 + (match options.model {
                Some(m) => seq!["--model"@, m@],
                None => Seq::<Seq<char>>::empty(),
            }));
        }
        if let Some(c) = &options.cursor {
            if c.force_approve {
                args.push(String::from_str("--force"));
            }
            let ghost sf = args_v(args@);
            proof {
                assert(sf =~= s2 + (if c.force_approve {
                    seq!["--force"@]
                } else {
                    Seq::<Seq<char>>::empty()
                }));
            }
            if let Some(m) = &c.mode {
                args.push(String::from_str("--mode"));
                args.push(m.clone());
            }
            let ghost sm = args_v(args@);
            proof {
                assert(sm =~= sf + (match c.mode {
                    Some(m) => seq!["--mode"@, m@],
                    None => Seq::<Seq<char>>::empty(),
                }));
            }
            if c.trust_workspace {
                args.push(String::from_str("--trust"));
            }
            proof {
                assert(args_v(args@) =~= sm + (if c.trust_workspace {
                    seq!["--trust"@]
                } else {
                    Seq::<Seq<char>>::empty()
                }));
            }
        }
        let ghost s3 = args_v(args@);
        proof {
            assert(s3 =~= s2 + (match options.cursor {
                Some(c) => (if c.force_approve {
                    seq!["--force"@]
                } else {
                    Seq::<Seq<char>>::empty()
                }) + (match c.mode {
                    Some(m) => seq!["--mode"@, m@],
                    None => Seq::<Seq<char>>::empty(),
                }) + (if c.trust_workspace {
                    seq!["--trust"@]
                } else {
                    Seq::<Seq<char>>::empty()
                }),
                None => Seq::<Seq<char>>::empty(),
            }));
        }
        crate::control::command_builder::append_extra_args(&mut args, &options.extra_args);
        args.push(String::from_str(prompt));
        proof {
            assert(args_v(args@) =~= turn_args_v(prompt@, view_opt_str(self.chat_id), *options));
        }
        self.has_started_turn = true;
        self.turn_running = true;
        Ok(args)
    }

    /// Watch one parsed event of the running turn for the session
    /// identifier, capturing it at most once: a captured identifier is
    /// never replaced.
    pub fn observe_event(&mut self, data: &Json)
        ensures
            final(self).has_started_turn == old(self).has_started_turn,
            final(self).turn_running == old(self).turn_running,
            view_opt_str(final(self).chat_id) == (match view_opt_str(old(self).chat_id) {
                Some(id) => Some(id),
                None => extract_chat_id_v(data.jv()),
            }),
    {
        if self.chat_id.is_some() {
            return ;
        }
        let is_system = match data.get_str("type") {
            Some(t) => crate::json::str_eq(t.as_str(), "system"),
            None => false,
        };
        let is_result = match data.get_str("type") {
            Some(t) => crate::json::str_eq(t.as_str(), "result"),
            None => false,
        };
        let extracted: Option<String> = if is_system {
            match data.get_str("chatId") {
                Some(id) => Some(id.clone()),
                None => match data.get_str("session_id") {
                    Some(id) => Some(id.clone()),
                    None => None,
                },
            }
        } else if is_result {
            match data.get_str("session_id") {
                Some(id) => Some(id.clone()),
                None => match data.get_str("chatId") {
                    Some(id) => Some(id.clone()),
                    None => None,
                },
            }
        } else {
            None
        };
        proof {
            reveal_strlit("system");
            reveal_strlit("result");
            assert("system"@[0] != "result"@[0]);
        }
        if let Some(id) = extracted {
            self.chat_id = Some(id);
        }
    }

    /// Record that the running turn's process has finished.
    pub fn turn_finished(&mut self)
        ensures
            final(self).chat_id == old(self).chat_id,
            final(self).has_started_turn == old(self).has_started_turn,
            !final(self).turn_running,
    {
        self.turn_running = false;
    }

    /// The captured session identifier, once observed.
    pub fn chat_id(&self) -> (r: Option<&String>)
        ensures
            match r {
                Some(id) => view_opt_str(self.chat_id) == Some(id@),
                None => self.chat_id is None,
            },
    {
        match &self.chat_id {
            Some(id) => Some(id),
            None => None,
        }
    }
}

} // verus!
