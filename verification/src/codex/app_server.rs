//! The app-server session state machine.
//!
//! The handshake is a strict sequence: an `initialize` request is answered,
//! an `initialized` notification and a `thread/start` request go out, and
//! the thread id of the matched answer makes the session ready for turns.
//! The runtime layer performs the I/O and feeds every incoming message to
//! [`CodexHandshake::on_message`]; turn requests and control requests are
//! built here and carry exact shapes.

use vstd::prelude::*;

use crate::codex::jsonrpc::{
    build_error_response, build_notification, build_request, build_response, error_response_v,
    notification_v, request_v, response_v, RequestIdGenerator,
};
use crate::error::Error;
use crate::json::{jv_get, jv_get_str, str_eq, Json, JsonV};
use crate::text::concat_str;

verus! {

/// Where the handshake stands.
#[derive(Debug)]
pub enum HandshakeState {
    /// The `initialize` request is out, awaiting its matched response.
    AwaitInitResponse { init_id: u64 },
    /// The `thread/start` request is out, awaiting its matched response.
    AwaitThreadResponse { thread_req_id: u64 },
    /// The thread is usable for turns.
    Ready { thread_id: String },
}

/// The payload of the `initialize` request.
pub open spec fn initialize_params_v() -> JsonV {
    JsonV::Obj(
        seq![
            ("clientName"@, JsonV::Str("code-agent-sdk"@)),
            ("clientVersion"@, JsonV::Str("0.1.0"@)),
        ],
    )
}

/// The payload of a `turn/start` request: the thread, and one user input.
pub open spec fn turn_start_params_v(thread_id: Seq<char>, prompt: Seq<char>) -> JsonV {
    JsonV::Obj(
        seq![
            ("threadId"@, JsonV::Str(thread_id)),
            (
                "input"@,
                JsonV::Arr(
                    seq![
                        JsonV::Obj(
                            seq![
                                ("role"@, JsonV::Str("user"@)),
                                ("content"@, JsonV::Str(prompt)),
                            ],
                        ),
                    ],
                ),
            ),
        ],
    )
}

/// The thread id named in a response's result, or empty.
pub open spec fn response_thread_id_v(msg: JsonV) -> Seq<char> {
    match jv_get(msg, "result"@) {
        Some(result) => match jv_get_str(result, "threadId"@) {
            Some(t) => t,
            None => Seq::empty(),
        },
        None => Seq::empty(),
    }
}

/// Whether a message is the response to the request with the given id.
pub open spec fn matches_response_v(msg: JsonV, id: u64) -> bool {
    crate::codex::jsonrpc::is_response_v(msg) && crate::json::jv_get_u64(msg, "id"@) == Some(
        id as int,
    )
}

/// Build the `initialize` request.
pub fn initialize_request(id: u64) -> (r: Json)
    requires
        id <= i64::MAX,
    ensures
        r.jv() == request_v(id, "initialize"@, initialize_params_v()),
{
    let mut fields: Vec<(String, Json)> = Vec::new();
    fields.push((String::from_str("clientName"), Json::str_of("code-agent-sdk")));
    fields.push((String::from_str("clientVersion"), Json::str_of("0.1.0")));
    let params = Json::Obj(fields);
    proof {
        crate::json::lemma_obj_fields(fields);
        assert(crate::json::obj_fields_v(fields@) =~= initialize_params_v()->Obj_0);
        assert(params.jv() =~= initialize_params_v());
    }
    build_request(id, "initialize", params)
}

/// Build the `initialized` notification.
pub fn initialized_notification() -> (r: Json)
    ensures
        r.jv() == notification_v("initialized"@, JsonV::Obj(Seq::empty())),
{
    let params = Json::Obj(Vec::new());
    proof {
        assert(params.jv()->Obj_0 =~= Seq::<(Seq<char>, JsonV)>::empty());
        assert(params.jv() =~= JsonV::Obj(Seq::empty()));
    }
    build_notification("initialized", params)
}

/// Build the `thread/start` request.
pub fn thread_start_request(id: u64) -> (r: Json)
    requires
        id <= i64::MAX,
    ensures
        r.jv() == request_v(id, "thread/start"@, JsonV::Obj(Seq::empty())),
{
    let params = Json::Obj(Vec::new());
    proof {
        assert(params.jv()->Obj_0 =~= Seq::<(Seq<char>, JsonV)>::empty());
        assert(params.jv() =~= JsonV::Obj(Seq::empty()));
    }
    build_request(id, "thread/start", params)
}

/// Build a `turn/start` request for a prompt on a thread.
pub fn turn_start_request(id: u64, thread_id: &str, prompt: &str) -> (r: Json)
    requires
        id <= i64::MAX,
    ensures
        r.jv() == request_v(id, "turn/start"@, turn_start_params_v(thread_id@, prompt@)),
{
    let mut input_fields: Vec<(String, Json)> = Vec::new();
    input_fields.push((String::from_str("role"), Json::str_of("user")));
    input_fields.push((String::from_str("content"), Json::str_of(prompt)));
    let entry = Json::Obj(input_fields);
    let mut input_items: Vec<Json> = Vec::new();
    input_items.push(entry);
    let input = Json::Arr(input_items);
    let mut fields: Vec<(String, Json)> = Vec::new();
    fields.push((String::from_str("threadId"), Json::str_of(thread_id)));
    fields.push((String::from_str("input"), input));
    let params = Json::Obj(fields);
    proof {
        let spec_params = turn_start_params_v(thread_id@, prompt@);
        crate::json::lemma_obj_fields(input_fields);
        assert(crate::json::obj_fields_v(input_fields@) =~= spec_params->Obj_0[1].1->Arr_0[0]
            ->Obj_0);
        assert(fields@[1].1.jv()->Arr_0 =~= spec_params->Obj_0[1].1->Arr_0);
        assert(fields@[1].1.jv() =~= spec_params->Obj_0[1].1);
        crate::json::lemma_obj_fields(fields);
        assert(crate::json::obj_fields_v(fields@) =~= spec_params->Obj_0);
        assert(params.jv() =~= spec_params);
    }
    build_request(id, "turn/start", params)
}

/// Build a `turn/interrupt` request for a thread.
pub fn interrupt_request(id: u64, thread_id: &str) -> (r: Json)
    requires
        id <= i64::MAX,
    ensures
        r.jv() == request_v(
            id,
            "turn/interrupt"@,
            JsonV::Obj(seq![("threadId"@, JsonV::Str(thread_id@))]),
        ),
{
    let mut fields: Vec<(String, Json)> = Vec::new();
    fields.push((String::from_str("threadId"), Json::str_of(thread_id)));
    let params = Json::Obj(fields);
    proof {
        crate::json::lemma_obj_fields(fields);
        assert(crate::json::obj_fields_v(fields@) =~= seq![("threadId"@, JsonV::Str(thread_id@))]);
        assert(params.jv() =~= JsonV::Obj(seq![("threadId"@, JsonV::Str(thread_id@))]));
    }
    build_request(id, "turn/interrupt", params)
}

/// What the handshake asks the runtime to do after a message.
#[derive(Debug)]
pub enum HandshakeAction {
    /// Nothing: the message was not the awaited response.
    Wait,
    /// Send each payload, in order.
    Send(Vec<Json>),
    /// The handshake is complete.
    Done,
}

/// The handshake state machine: `initialize` answered, then `initialized`
/// and `thread/start` go out, then the matched answer's thread id makes the
/// session ready.
#[derive(Debug)]
pub struct CodexHandshake {
    pub state: HandshakeState,
    pub ids: RequestIdGenerator,
}

impl CodexHandshake {
    /// Start the handshake: the `initialize` request to send first.
    pub fn new() -> (r: (Self, Json))
        ensures
            r.0.state matches HandshakeState::AwaitInitResponse { init_id } && r.1.jv()
                == request_v(init_id, "initialize"@, initialize_params_v()),
            r.0.ids.next() == 2,
    {
        let mut ids = RequestIdGenerator::new();
        let init_id = ids.next_id();
        let req = initialize_request(init_id);
        (CodexHandshake { state: HandshakeState::AwaitInitResponse { init_id }, ids }, req)
    }

    /// Feed one incoming message to the handshake.
    ///
    /// Only the awaited response advances it: the `initialize` response
    /// triggers the `initialized` notification and the `thread/start`
    /// request; the `thread/start` response captures the thread id and
    /// completes the handshake. Everything else leaves the state unchanged.
    pub fn on_message(&mut self, msg: &Json) -> (r: HandshakeAction)
        requires
            old(self).ids.next() < u64::MAX,
            old(self).ids.next() <= i64::MAX,
        ensures
            final(self).ids.next() <= old(self).ids.next() + 1,
            (r is Wait || r is Done) ==> final(self).ids == old(self).ids,
            match old(self).state {
                HandshakeState::AwaitInitResponse { init_id } => {
                    if matches_response_v(msg.jv(), init_id) {
                        &&& final(self).state matches HandshakeState::AwaitThreadResponse {
                            thread_req_id,
                        } && thread_req_id == old(self).ids.next()
                        &&& r matches HandshakeAction::Send(out) && out@.len() == 2 && out@[0].jv()
                            == notification_v("initialized"@, JsonV::Obj(Seq::empty()))
                            && out@[1].jv() == request_v(
                            old(self).ids.next(),
                            "thread/start"@,
                            JsonV::Obj(Seq::empty()),
                        )
                    } else {
                        final(self).state == old(self).state && r is Wait
                    }
                },
                HandshakeState::AwaitThreadResponse { thread_req_id } => {
                    if matches_response_v(msg.jv(), thread_req_id) {
                        &&& final(self).state matches HandshakeState::Ready { thread_id }
                            && thread_id@ == response_thread_id_v(msg.jv())
                        &&& r is Done
                    } else {
                        final(self).state == old(self).state && r is Wait
                    }
                },
                HandshakeState::Ready { .. } => final(self).state == old(self).state && r is Wait,
            },
    {
        match &self.state {
            HandshakeState::AwaitInitResponse { init_id } => {
                let init_id = *init_id;
                let is_match = crate::codex::jsonrpc::is_response(msg) && {
                    match crate::codex::jsonrpc::get_id(msg) {
                        Some(id) => id == init_id,
                        None => false,
                    }
                };
                if is_match {
                    let notif = initialized_notification();
                    let thread_req_id = self.ids.next_id();
                    let req = thread_start_request(thread_req_id);
                    self.state = HandshakeState::AwaitThreadResponse { thread_req_id };
                    let mut out: Vec<Json> = Vec::new();
                    out.push(notif);
                    out.push(req);
                    HandshakeAction::Send(out)
                } else {
                    HandshakeAction::Wait
                }
            },
            HandshakeState::AwaitThreadResponse { thread_req_id } => {
                let thread_req_id = *thread_req_id;
                let is_match = crate::codex::jsonrpc::is_response(msg) && {
                    match crate::codex::jsonrpc::get_id(msg) {
                        Some(id) => id == thread_req_id,
                        None => false,
                    }
                };
                if is_match {
                    let thread_id: String = match msg.get("result") {
                        Some(result) => match result.get_str("threadId") {
                            Some(t) => t.clone(),
                            None => String::new(),
                        },
                        None => String::new(),
                    };
                    self.state = HandshakeState::Ready { thread_id };
                    HandshakeAction::Done
                } else {
                    HandshakeAction::Wait
                }
            },
            HandshakeState::Ready { .. } => HandshakeAction::Wait,
        }
    }

    /// The id the handshake's generator will use next, for callers that
    /// must check the machine limit before driving it further.
    pub fn ids_next(&self) -> (r: u64)
        ensures
            r == self.ids.next(),
    {
        self.ids.peek()
    }

    /// The captured thread id, once ready.
    pub fn thread_id(&self) -> (r: Option<&String>)
        ensures
            match r {
                Some(t) => self.state matches HandshakeState::Ready { thread_id } && t@
                    == thread_id@,
                None => !(self.state is Ready),
            },
    {
        match &self.state {
            HandshakeState::Ready { thread_id } => Some(thread_id),
            _ => None,
        }
    }

    /// Build the next turn's `turn/start` request, or refuse when no thread
    /// is active.
    pub fn start_turn(&mut self, prompt: &str) -> (r: Result<Json, Error>)
        requires
            old(self).ids.next() < u64::MAX,
            old(self).ids.next() <= i64::MAX,
        ensures
            final(self).state == old(self).state,
            final(self).ids.next() <= old(self).ids.next() + 1,
            r is Err ==> final(self).ids == old(self).ids,
            match old(self).state {
                HandshakeState::Ready { thread_id } => r matches Ok(req) && req.jv() == request_v(
                    old(self).ids.next(),
                    "turn/start"@,
                    turn_start_params_v(thread_id@, prompt@),
                ),
                _ => r matches Err(Error::Other(m)) && m@ == "No active thread"@,
            },
    {
        match &self.state {
            HandshakeState::Ready { thread_id } => {
                let thread_id = thread_id.clone();
                let id = self.ids.next_id();
                Ok(turn_start_request(id, thread_id.as_str(), prompt.clone()))
            },
            _ => Err(Error::Other(String::from_str("No active thread"))),
        }
    }

    /// Build the wire request for a control request, or refuse it.
    ///
    /// Only `interrupt` is supported over this protocol; every other
    /// subtype is an unsupported feature of this backend.
    pub fn control_request(&mut self, request: &Json) -> (r: Result<Json, Error>)
        requires
            old(self).ids.next() < u64::MAX,
            old(self).ids.next() <= i64::MAX,
        ensures
            final(self).state == old(self).state,
            final(self).ids.next() <= old(self).ids.next() + 1,
            r is Err ==> final(self).ids == old(self).ids,
            ({
                let subtype = crate::codex::message_parser::str_or_empty(
                    request.jv(),
                    "subtype"@,
                );
                if subtype == "interrupt"@ {
                    match old(self).state {
                        HandshakeState::Ready { thread_id } => r matches Ok(req) && req.jv()
                            == request_v(
                            old(self).ids.next(),
                            "turn/interrupt"@,
                            JsonV::Obj(seq![("threadId"@, JsonV::Str(thread_id@))]),
                        ),
                        _ => r matches Err(Error::Other(m)) && m@ == "No active thread"@,
                    }
                } else {
                    r matches Err(Error::UnsupportedFeature { feature, backend }) && feature@
                        == "control request '"@ + subtype + "'"@ && backend@ == "Codex"@
                }
            }),
    {
        let subtype: String = match request.get_str("subtype") {
            Some(s) => s.clone(),
            None => String::new(),
        };
        if str_eq(subtype.as_str(), "interrupt") {
            match &self.state {
                HandshakeState::Ready { thread_id } => {
                    let thread_id = thread_id.clone();
                    let id = self.ids.next_id();
                    Ok(interrupt_request(id, thread_id.as_str()))
                },
                _ => Err(Error::Other(String::from_str("No active thread"))),
            }
        } else {
            let head = concat_str("control request '", subtype.as_str());
            let feature = concat_str(head.as_str(), "'");
            Err(
                Error::UnsupportedFeature { feature, backend: String::from_str("Codex") },
            )
        }
    }
}

/// The tool name and input a server approval request stands for, handed to
/// the permission callback: a command approval asks about `Bash`, a file
/// change about `Edit`.
pub fn approval_callback_args(method: &str, params: &Json) -> (r: Option<(String, Json)>)
    ensures
        method@ == "item/commandExecution/requestApproval"@ ==> (r matches Some(p) && p.0@
            == "Bash"@ && p.1.jv() == JsonV::Obj(
            seq![
                (
                    "command"@,
                    JsonV::Str(
                        crate::codex::message_parser::str_or_empty(params.jv(), "command"@),
                    ),
                ),
            ],
        )),
        method@ == "item/fileChange/requestApproval"@ ==> (r matches Some(p) && p.0@ == "Edit"@
            && p.1.jv() == JsonV::Obj(
            seq![
                (
                    "file_path"@,
                    JsonV::Str(
                        crate::codex::message_parser::str_or_empty(params.jv(), "filePath"@),
                    ),
                ),
            ],
        )),
        method@ != "item/commandExecution/requestApproval"@ && method@
            != "item/fileChange/requestApproval"@ ==> r is None,
{
    proof {
        reveal_strlit("item/commandExecution/requestApproval");
        reveal_strlit("item/fileChange/requestApproval");
        assert("item/commandExecution/requestApproval"@.len()
            != "item/fileChange/requestApproval"@.len());
    }
    if str_eq(method, "item/commandExecution/requestApproval") {
        let command: String = match params.get_str("command") {
            Some(c) => c.clone(),
            None => String::new(),
        };
        let ghost cv = command@;
        let mut fields: Vec<(String, Json)> = Vec::new();
        fields.push((String::from_str("command"), Json::Str(command)));
        let input = Json::Obj(fields);
        proof {
            crate::json::lemma_obj_fields(fields);
            assert(crate::json::obj_fields_v(fields@) =~= seq![("command"@, JsonV::Str(cv))]);
            assert(input.jv() =~= JsonV::Obj(seq![("command"@, JsonV::Str(cv))]));
        }
        Some((String::from_str("Bash"), input))
    } else if str_eq(method, "item/fileChange/requestApproval") {
        let file_path: String = match params.get_str("filePath") {
            Some(c) => c.clone(),
            None => String::new(),
        };
        let ghost fv = file_path@;
        let mut fields: Vec<(String, Json)> = Vec::new();
        fields.push((String::from_str("file_path"), Json::Str(file_path)));
        let input = Json::Obj(fields);
        proof {
            crate::json::lemma_obj_fields(fields);
            assert(crate::json::obj_fields_v(fields@) =~= seq![("file_path"@, JsonV::Str(fv))]);
            assert(input.jv() =~= JsonV::Obj(seq![("file_path"@, JsonV::Str(fv))]));
        }
        Some((String::from_str("Edit"), input))
    } else {
        None
    }
}

/// The decision payload an approval verdict maps to.
pub open spec fn decision_params_v(allow: bool) -> JsonV {
    JsonV::Obj(
        seq![
            (
                "decision"@,
                JsonV::Str(
                    if allow {
                        "accept"@
                    } else {
                        "decline"@
                    },
                ),
            ),
        ],
    )
}

/// The response to a server-initiated request, given the callback's verdict.
///
/// Approval requests answer with accept or decline; absence of a callback
/// means accept (`verdict` is then `true`). Anything else is refused with a
/// method-not-found error.
pub fn server_request_response(method: &str, id: Json, verdict: bool) -> (r: Json)
    ensures
        (method@ == "item/commandExecution/requestApproval"@ || method@
            == "item/fileChange/requestApproval"@) ==> r.jv() == response_v(
            id.jv(),
            decision_params_v(verdict),
        ),
        method@ == "item/tool/call"@ ==> r.jv() == error_response_v(
            id.jv(),
            -32601,
            "Dynamic tool calls not supported by SDK"@,
        ),
        method@ != "item/commandExecution/requestApproval"@ && method@
            != "item/fileChange/requestApproval"@ && method@ != "item/tool/call"@ ==> r.jv()
            == error_response_v(id.jv(), -32601, "Unknown server request: "@ + method@),
{
    proof {
        reveal_strlit("item/commandExecution/requestApproval");
        reveal_strlit("item/fileChange/requestApproval");
        reveal_strlit("item/tool/call");
        assert("item/commandExecution/requestApproval"@.len()
            != "item/fileChange/requestApproval"@.len());
        assert("item/tool/call"@.len() != "item/commandExecution/requestApproval"@.len());
        assert("item/tool/call"@.len() != "item/fileChange/requestApproval"@.len());
    }
    if str_eq(method, "item/commandExecution/requestApproval") || str_eq(
        method,
        "item/fileChange/requestApproval",
    ) {
        let decision = if verdict {
            "accept"
        } else {
            "decline"
        };
        let mut fields: Vec<(String, Json)> = Vec::new();
        fields.push((String::from_str("decision"), Json::str_of(decision)));
        let params = Json::Obj(fields);
        proof {
            crate::json::lemma_obj_fields(fields);
            assert(crate::json::obj_fields_v(fields@) =~= decision_params_v(verdict)->Obj_0);
            assert(params.jv() =~= decision_params_v(verdict));
        }
        build_response(id, params)
    } else if str_eq(method, "item/tool/call") {
        build_error_response(id, -32601, "Dynamic tool calls not supported by SDK")
    } else {
        let message = concat_str("Unknown server request: ", method);
        build_error_response(id, -32601, message.as_str())
    }
}

} // verus!
