//! The persistent backend's control protocol.
//!
//! A long-lived process speaks JSON lines in both directions. Each line read
//! is classified as a server-initiated control request, a control response
//! (correlated by request id), an end or error marker, or ordinary data;
//! outbound control requests carry fresh collision-resistant ids. The
//! runtime layer owns the pipes and the timers; every payload and decision
//! is built here.

use vstd::prelude::*;

use crate::error::Error;
use crate::json::{lemma_lookup_head, lemma_lookup_tail, lemma_obj_fields, obj_fields_v};
use crate::json::{jv_get, jv_get_str, str_eq, Json, JsonNum, JsonNumV, JsonV};
use crate::jsontext::{hex_char, json_to_string, jv_text};
use crate::options::{
    hook_event_label, AgentDefinition, AgentOptions, HookEvent, HookJSONOutput, HookMatcher,
    McpSdkConfig, PermissionResult, PermissionRuleValue, PermissionUpdate,
};
use crate::text::{chars_to_string, concat_str, dec_digits, push_u64_text};

verus! {

/// How one incoming line is handled.
#[derive(Debug)]
pub enum LineClass {
    /// A cancel notice for an outstanding server request; ignored.
    ControlCancel,
    /// A server-initiated request, to be answered over the wire.
    ControlRequest,
    /// The stream's end marker.
    End,
    /// The stream's error marker, with its message.
    ErrorLine(String),
    /// An ordinary data message, fanned out to the readers.
    Data,
}

/// The class of a line, by its type tag.
pub open spec fn line_class_v(j: JsonV) -> LineClass {
    let t = match jv_get_str(j, "type"@) {
        Some(t) => t,
        None => Seq::empty(),
    };
    if t == "control_cancel_request"@ {
        LineClass::ControlCancel
    } else if t == "control_request"@ {
        LineClass::ControlRequest
    } else if t == "end"@ {
        LineClass::End
    } else if t == "error"@ {
        LineClass::ErrorLine(arbitrary())
    } else {
        LineClass::Data
    }
}

/// Classify one incoming line; an error line carries the named message or
/// `"Unknown"`.
pub fn classify_line(data: &Json) -> (r: LineClass)
    ensures
        r is ControlCancel <==> line_class_v(data.jv()) is ControlCancel,
        r is ControlRequest <==> line_class_v(data.jv()) is ControlRequest,
        r is End <==> line_class_v(data.jv()) is End,
        r is Data <==> line_class_v(data.jv()) is Data,
        r matches LineClass::ErrorLine(m) ==> m@ == (match jv_get_str(data.jv(), "error"@) {
            Some(e) => e,
            None => "Unknown"@,
        }),
{
    let t: String = match data.get_str("type") {
        Some(t) => t.clone(),
        None => String::new(),
    };
    proof {
        reveal_strlit("control_cancel_request");
        reveal_strlit("control_request");
        reveal_strlit("end");
        reveal_strlit("error");
        assert("control_cancel_request"@.len() != "control_request"@.len());
        assert("end"@.len() != "control_cancel_request"@.len());
        assert("end"@.len() != "control_request"@.len());
        assert("error"@.len() != "control_cancel_request"@.len());
        assert("error"@.len() != "control_request"@.len());
        assert("error"@.len() != "end"@.len());
    }
    if str_eq(t.as_str(), "control_cancel_request") {
        LineClass::ControlCancel
    } else if str_eq(t.as_str(), "control_request") {
        LineClass::ControlRequest
    } else if str_eq(t.as_str(), "end") {
        LineClass::End
    } else if str_eq(t.as_str(), "error") {
        let m = match data.get_str("error") {
            Some(e) => e.clone(),
            None => String::from_str("Unknown"),
        };
        LineClass::ErrorLine(m)
    } else {
        LineClass::Data
    }
}

/// Eight lowercase hexadecimal digits of a value below 2^32.
pub open spec fn hex8_text(n: int) -> Seq<char> {
    seq![
        hex_char((n / 0x10000000) % 16),
        hex_char((n / 0x1000000) % 16),
        hex_char((n / 0x100000) % 16),
        hex_char((n / 0x10000) % 16),
        hex_char((n / 0x1000) % 16),
        hex_char((n / 0x100) % 16),
        hex_char((n / 0x10) % 16),
        hex_char(n % 16),
    ]
}

/// The text of the `n`-th request id: the counter and a multiplicative hash
/// of it, collision-resistant across concurrent sessions.
pub open spec fn request_id_text(n: int) -> Seq<char> {
    "req_"@ + dec_digits(n) + "_"@ + hex8_text((n * 2654435761) % 0x1_0000_0000)
}

fn hex_digit_char(d: u64) -> (c: char)
    requires
        d < 16,
    ensures
        c == hex_char(d as int),
{
    match d {
        0 => '0',
        1 => '1',
        2 => '2',
        3 => '3',
        4 => '4',
        5 => '5',
        6 => '6',
        7 => '7',
        8 => '8',
        9 => '9',
        10 => 'a',
        11 => 'b',
        12 => 'c',
        13 => 'd',
        14 => 'e',
        _ => 'f',
    }
}

/// The control-request id counter.
#[derive(Debug)]
pub struct ControlState {
    counter: u64,
}

impl ControlState {
    /// The number the next request id is minted from.
    pub closed spec fn next(&self) -> u64 {
        self.counter
    }

    /// A fresh counter, starting at zero.
    pub fn new() -> (r: Self)
        ensures
            r.next() == 0,
    {
        ControlState { counter: 0 }
    }

    /// The number the next id will be minted from, for callers that must
    /// check the machine limit before asking for it.
    pub fn peek(&self) -> (r: u64)
        ensures
            r == self.next(),
    {
        self.counter
    }

    /// Mint the next request id.
    pub fn next_request_id(&mut self) -> (r: String)
        requires
            old(self).next() < u64::MAX,
        ensures
            r@ == request_id_text(old(self).next() as int),
            final(self).next() == old(self).next() + 1,
    {
        let n = self.counter;
        self.counter = self.counter + 1;
        let hash: u64 = (((n as u128) * 2654435761u128) % 0x1_0000_0000u128) as u64;
        proof {
            assert(hash == (n * 2654435761) % 0x1_0000_0000);
            assert(hash < 0x1_0000_0000u64);
        }
        let mut out: Vec<char> = Vec::new();
        out.push('r');
        out.push('e');
        out.push('q');
        out.push('_');
        proof {
            reveal_strlit("req_");
            assert(out@ =~= "req_"@);
        }
        push_u64_text(n, &mut out);
        out.push('_');
        let ghost before_hex = out@;
        out.push(hex_digit_char((hash / 0x10000000) % 16));
        out.push(hex_digit_char((hash / 0x1000000) % 16));
        out.push(hex_digit_char((hash / 0x100000) % 16));
        out.push(hex_digit_char((hash / 0x10000) % 16));
        out.push(hex_digit_char((hash / 0x1000) % 16));
        out.push(hex_digit_char((hash / 0x100) % 16));
        out.push(hex_digit_char((hash / 0x10) % 16));
        out.push(hex_digit_char(hash % 16));
        proof {
            reveal_strlit("_");
            assert(out@ =~= "req_"@ + dec_digits(n as int) + "_"@ + hex8_text(hash as int));
        }
        chars_to_string(&out)
    }
}

/// A full control request envelope around a request payload.
pub open spec fn control_request_v(request_id: Seq<char>, request: JsonV) -> JsonV {
    JsonV::Obj(
        seq![
            ("type"@, JsonV::Str("control_request"@)),
            ("request_id"@, JsonV::Str(request_id)),
            ("request"@, request),
        ],
    )
}

/// Wrap a request payload in the control request envelope.
pub fn build_control_request(request_id: &str, request: Json) -> (r: Json)
    ensures
        r.jv() == control_request_v(request_id@, request.jv()),
{
    let ghost rv = request.jv();
    let mut fields: Vec<(String, Json)> = Vec::new();
    fields.push((String::from_str("type"), Json::str_of("control_request")));
    fields.push((String::from_str("request_id"), Json::str_of(request_id)));
    fields.push((String::from_str("request"), request));
    let r = Json::Obj(fields);
    proof {
        crate::json::lemma_obj_fields(fields);
        assert(crate::json::obj_fields_v(fields@) =~= control_request_v(request_id@, rv)->Obj_0);
        assert(r.jv() =~= control_request_v(request_id@, rv));
    }
    r
}

/// The user message written for a prompt within a session.
pub open spec fn user_message_v(prompt: Seq<char>, session_id: Seq<char>) -> JsonV {
    JsonV::Obj(
        seq![
            ("type"@, JsonV::Str("user"@)),
            ("session_id"@, JsonV::Str(session_id)),
            (
                "message"@,
                JsonV::Obj(
                    seq![("role"@, JsonV::Str("user"@)), ("content"@, JsonV::Str(prompt))],
                ),
            ),
            ("parent_tool_use_id"@, JsonV::Null),
        ],
    )
}

/// Build the user message for a prompt.
pub fn build_user_message(prompt: &str, session_id: &str) -> (r: Json)
    ensures
        r.jv() == user_message_v(prompt@, session_id@),
{
    let mut inner: Vec<(String, Json)> = Vec::new();
    inner.push((String::from_str("role"), Json::str_of("user")));
    inner.push((String::from_str("content"), Json::str_of(prompt)));
    let message = Json::Obj(inner);
    proof {
        crate::json::lemma_obj_fields(inner);
        assert(crate::json::obj_fields_v(inner@) =~= user_message_v(prompt@, session_id@)
            ->Obj_0[2].1->Obj_0);
        assert(message.jv() =~= user_message_v(prompt@, session_id@)->Obj_0[2].1);
    }
    let mut fields: Vec<(String, Json)> = Vec::new();
    fields.push((String::from_str("type"), Json::str_of("user")));
    fields.push((String::from_str("session_id"), Json::str_of(session_id)));
    fields.push((String::from_str("message"), message));
    fields.push((String::from_str("parent_tool_use_id"), Json::Null));
    let r = Json::Obj(fields);
    proof {
        crate::json::lemma_obj_fields(fields);
        assert(crate::json::obj_fields_v(fields@) =~= user_message_v(prompt@, session_id@)->Obj_0);
        assert(r.jv() =~= user_message_v(prompt@, session_id@));
    }
    r
}

/// What a data line means for a caller awaiting the response to a given
/// request id: nothing, or the matched verdict.
pub open spec fn control_response_match_v(j: JsonV, request_id: Seq<char>) -> Option<
    Result<JsonV, Seq<char>>,
> {
    match jv_get(j, "response"@) {
        Some(resp) => if jv_get_str(resp, "request_id"@) == Some(request_id) {
            if jv_get_str(resp, "subtype"@) == Some("error"@) {
                Some(
                    Err(
                        match jv_get_str(resp, "error"@) {
                            Some(e) => e,
                            None => "Unknown"@,
                        },
                    ),
                )
            } else {
                Some(
                    Ok(
                        match jv_get(resp, "response"@) {
                            Some(v) => v,
                            None => JsonV::Null,
                        },
                    ),
                )
            }
        } else {
            None
        },
        None => None,
    }
}

/// Match a data line against an awaited control response: `None` leaves the
/// caller waiting; a matched error subtype carries the named error text.
pub fn match_control_response(data: &Json, request_id: &str) -> (r: Option<Result<Json, Error>>)
    ensures
        match r {
            None => control_response_match_v(data.jv(), request_id@) is None,
            Some(Ok(v)) => control_response_match_v(data.jv(), request_id@) == Some(
                Ok::<JsonV, Seq<char>>(v.jv()),
            ),
            Some(Err(e)) => e matches Error::Other(m) && control_response_match_v(
                data.jv(),
                request_id@,
            ) == Some(Err::<JsonV, Seq<char>>(m@)),
        },
{
    let resp = match data.get("response") {
        Some(resp) => resp,
        None => {
            return None;
        },
    };
    let matches_id = match resp.get_str("request_id") {
        Some(rid) => str_eq(rid.as_str(), request_id),
        None => false,
    };
    if !matches_id {
        return None;
    }
    let is_error = match resp.get_str("subtype") {
        Some(st) => str_eq(st.as_str(), "error"),
        None => false,
    };
    if is_error {
        let m = match resp.get_str("error") {
            Some(e) => e.clone(),
            None => String::from_str("Unknown"),
        };
        Some(Err(Error::Other(m)))
    } else {
        let v = match resp.get("response") {
            Some(v) => v.clone(),
            None => Json::Null,
        };
        Some(Ok(v))
    }
}

/// The control response sent back after a failed server-initiated request.
pub open spec fn control_error_text_v(request_id: Seq<char>, error: Seq<char>) -> Seq<char> {
    jv_text(
        JsonV::Obj(
            seq![
                ("type"@, JsonV::Str("control_response"@)),
                (
                    "response"@,
                    JsonV::Obj(
                        seq![
                            ("subtype"@, JsonV::Str("error"@)),
                            ("request_id"@, JsonV::Str(request_id)),
                            ("error"@, JsonV::Str(error)),
                        ],
                    ),
                ),
            ],
        ),
    )
}

/// Render the error control response for a failed server-initiated request.
pub fn format_control_error(request_id: &str, error: &str) -> (r: String)
    ensures
        r@ == control_error_text_v(request_id@, error@),
{
    let mut inner: Vec<(String, Json)> = Vec::new();
    inner.push((String::from_str("subtype"), Json::str_of("error")));
    inner.push((String::from_str("request_id"), Json::str_of(request_id)));
    inner.push((String::from_str("error"), Json::str_of(error)));
    let response = Json::Obj(inner);
    let mut fields: Vec<(String, Json)> = Vec::new();
    fields.push((String::from_str("type"), Json::str_of("control_response")));
    fields.push((String::from_str("response"), response));
    let envelope = Json::Obj(fields);
    proof {
        let spec_env = JsonV::Obj(
            seq![
                ("type"@, JsonV::Str("control_response"@)),
                (
                    "response"@,
                    JsonV::Obj(
                        seq![
                            ("subtype"@, JsonV::Str("error"@)),
                            ("request_id"@, JsonV::Str(request_id@)),
                            ("error"@, JsonV::Str(error@)),
                        ],
                    ),
                ),
            ],
        );
        crate::json::lemma_obj_fields(inner);
        assert(crate::json::obj_fields_v(inner@) =~= spec_env->Obj_0[1].1->Obj_0);
        assert(fields@[1].1.jv() =~= spec_env->Obj_0[1].1);
        crate::json::lemma_obj_fields(fields);
        assert(crate::json::obj_fields_v(fields@) =~= spec_env->Obj_0);
        assert(envelope.jv() =~= spec_env);
    }
    json_to_string(&envelope)
}

/// The success control response around a server-initiated request's answer.
pub open spec fn control_success_v(request_id: Seq<char>, response: JsonV) -> JsonV {
    JsonV::Obj(
        seq![
            ("type"@, JsonV::Str("control_response"@)),
            (
                "response"@,
                JsonV::Obj(
                    seq![
                        ("subtype"@, JsonV::Str("success"@)),
                        ("request_id"@, JsonV::Str(request_id)),
                        ("response"@, response),
                    ],
                ),
            ),
        ],
    )
}

/// Build the success control response around an answer payload.
pub fn build_success_response(request_id: &str, response_data: Json) -> (r: Json)
    ensures
        r.jv() == control_success_v(request_id@, response_data.jv()),
{
    let ghost dv = response_data.jv();
    let mut inner: Vec<(String, Json)> = Vec::new();
    inner.push((String::from_str("subtype"), Json::str_of("success")));
    inner.push((String::from_str("request_id"), Json::str_of(request_id)));
    inner.push((String::from_str("response"), response_data));
    let response = Json::Obj(inner);
    let mut fields: Vec<(String, Json)> = Vec::new();
    fields.push((String::from_str("type"), Json::str_of("control_response")));
    fields.push((String::from_str("response"), response));
    let r = Json::Obj(fields);
    proof {
        crate::json::lemma_obj_fields(inner);
        assert(crate::json::obj_fields_v(inner@) =~= control_success_v(request_id@, dv)
            ->Obj_0[1].1->Obj_0);
        assert(fields@[1].1.jv() =~= control_success_v(request_id@, dv)->Obj_0[1].1);
        crate::json::lemma_obj_fields(fields);
        assert(crate::json::obj_fields_v(fields@) =~= control_success_v(request_id@, dv)->Obj_0);
        assert(r.jv() =~= control_success_v(request_id@, dv));
    }
    r
}

/// The reply payload a tool-permission verdict serialises to: allow carries
/// the (possibly amended) input and any permission updates, deny carries the
/// message and, when asked, the interrupt flag.
pub fn permission_result_to_response(result: &PermissionResult, original_input: Json) -> (r: Json)
    ensures
        result matches PermissionResult::Allow(a) ==> r.jv() is Obj && jv_get_str(
            r.jv(),
            "behavior"@,
        ) == Some("allow"@) && jv_get(r.jv(), "updatedInput"@) == Some(
            match a.updated_input {
                Some(u) => u.jv(),
                None => original_input.jv(),
            },
        ),
        result matches PermissionResult::Deny(d) ==> r.jv() is Obj && jv_get_str(
            r.jv(),
            "behavior"@,
        ) == Some("deny"@) && jv_get_str(r.jv(), "message"@) == Some(d.message@) && (d.interrupt
            ==> crate::json::jv_get_bool(r.jv(), "interrupt"@) == Some(true)),
{
    match result {
        PermissionResult::Allow(a) => {
            let mut fields: Vec<(String, Json)> = Vec::new();
            fields.push((String::from_str("behavior"), Json::str_of("allow")));
            let updated = match &a.updated_input {
                Some(u) => u.clone(),
                None => original_input,
            };
            fields.push((String::from_str("updatedInput"), updated));
            if let Some(perms) = &a.updated_permissions {
                let mut arr: Vec<Json> = Vec::new();
                let n = perms.len();
                let mut i: usize = 0;
                while i < n
                    invariant
                        i <= n,
                        n == perms@.len(),
                    decreases n - i,
                {
                    arr.push(perms[i].to_control_protocol_value());
                    i += 1;
                }
                fields.push((String::from_str("updatedPermissions"), Json::Arr(arr)));
            }
            let r = Json::Obj(fields);
            proof {
                reveal_strlit("behavior");
                reveal_strlit("updatedInput");
                reveal_strlit("updatedPermissions");
                assert("behavior"@.len() != "updatedInput"@.len());
                assert("behavior"@.len() != "updatedPermissions"@.len());
                lemma_obj_fields(fields);
                let fv = obj_fields_v(fields@);
                assert(fv[0] == ("behavior"@, JsonV::Str("allow"@)));
                lemma_lookup_head(fv, "behavior"@);
                lemma_lookup_tail(fv, "updatedInput"@);
                assert(fv.drop_first()[0] == fv[1]);
                lemma_lookup_head(fv.drop_first(), "updatedInput"@);
            }
            r
        },
        PermissionResult::Deny(d) => {
            let mut fields: Vec<(String, Json)> = Vec::new();
            fields.push((String::from_str("behavior"), Json::str_of("deny")));
            fields.push((String::from_str("message"), Json::Str(d.message.clone())));
            if d.interrupt {
                fields.push((String::from_str("interrupt"), Json::Bool(true)));
            }
            let r = Json::Obj(fields);
            proof {
                reveal_strlit("behavior");
                reveal_strlit("message");
                reveal_strlit("interrupt");
                assert("behavior"@.len() != "message"@.len());
                assert("behavior"@.len() != "interrupt"@.len());
                assert("message"@.len() != "interrupt"@.len());
                lemma_obj_fields(fields);
                let fv = obj_fields_v(fields@);
                assert(fv[0] == ("behavior"@, JsonV::Str("deny"@)));
                assert(fv[1] == ("message"@, JsonV::Str(d.message@)));
                lemma_lookup_head(fv, "behavior"@);
                lemma_lookup_tail(fv, "message"@);
                assert(fv.drop_first()[0] == fv[1]);
                lemma_lookup_head(fv.drop_first(), "message"@);
                if d.interrupt {
                    assert(fv[2] == ("interrupt"@, JsonV::Bool(true)));
                    lemma_lookup_tail(fv, "interrupt"@);
                    lemma_lookup_tail(fv.drop_first(), "interrupt"@);
                    assert(fv.drop_first().drop_first()[0] == fv[2]);
                    lemma_lookup_head(fv.drop_first().drop_first(), "interrupt"@);
                }
            }
            r
        },
    }
}

/// The wire fields of a hook callback's output: an asynchronous verdict
/// carries its marker and, when set, its timeout (clamped to the number
/// model's integer range); a synchronous verdict carries exactly the fields
/// that are set, in documented order.
pub open spec fn hook_output_fields_v(output: HookJSONOutput) -> Seq<(Seq<char>, JsonV)> {
    match output {
        HookJSONOutput::Async { async_timeout } => seq![("async"@, JsonV::Bool(true))] + (
        match async_timeout {
            Some(t) => seq![
                (
                    "asyncTimeout"@,
                    JsonV::Num(
                        JsonNumV::Int(
                            if t <= i64::MAX as u64 {
                                t as int
                            } else {
                                i64::MAX as int
                            },
                        ),
                    ),
                ),
            ],
            None => Seq::empty(),
        }),
        HookJSONOutput::Sync {
            continue_,
            suppress_output,
            stop_reason,
            decision,
            system_message,
            reason,
            hook_specific_output,
        } => (match continue_ {
            Some(v) => seq![("continue"@, JsonV::Bool(v))],
            None => Seq::empty(),
        }) + (match suppress_output {
            Some(v) => seq![("suppressOutput"@, JsonV::Bool(v))],
            None => Seq::empty(),
        }) + (match stop_reason {
            Some(v) => seq![("stopReason"@, JsonV::Str(v@))],
            None => Seq::empty(),
        }) + (match decision {
            Some(v) => seq![("decision"@, JsonV::Str(v@))],
            None => Seq::empty(),
        }) + (match system_message {
            Some(v) => seq![("systemMessage"@, JsonV::Str(v@))],
            None => Seq::empty(),
        }) + (match reason {
            Some(v) => seq![("reason"@, JsonV::Str(v@))],
            None => Seq::empty(),
        }) + (match hook_specific_output {
            Some(v) => seq![("hookSpecificOutput"@, v.jv())],
            None => Seq::empty(),
        }),
    }
}

/// What a hook callback's output serialises to on the wire: exactly
/// [`hook_output_fields_v`]. A timeout beyond the integer range of the
/// number model is clamped to its maximum.
#[verifier::rlimit(100)]
pub fn hook_output_to_json(output: &HookJSONOutput) -> (r: Json)
    ensures
        r.jv() == JsonV::Obj(hook_output_fields_v(*output)),
{
    match output {
        HookJSONOutput::Async { async_timeout } => {
            let mut fields: Vec<(String, Json)> = Vec::new();
            fields.push((String::from_str("async"), Json::Bool(true)));
            if let Some(t) = async_timeout {
                if *t <= 0x7FFF_FFFF_FFFF_FFFFu64 {
                    fields.push(
                        (String::from_str("asyncTimeout"), Json::Num(JsonNum::Int(*t as i64))),
                    );
                } else {
                    fields.push(
                        (
                            String::from_str("asyncTimeout"),
                            Json::Num(JsonNum::Int(0x7FFF_FFFF_FFFF_FFFFi64)),
                        ),
                    );
                }
            }
            let r = Json::Obj(fields);
            proof {
                lemma_obj_fields(fields);
                assert(obj_fields_v(fields@) =~= hook_output_fields_v(*output));
                assert(r.jv() =~= JsonV::Obj(hook_output_fields_v(*output)));
            }
            r
        },
        HookJSONOutput::Sync {
            continue_,
            suppress_output,
            stop_reason,
            decision,
            system_message,
            reason,
            hook_specific_output,
        } => {
            let mut fields: Vec<(String, Json)> = Vec::new();
            if let Some(v) = continue_ {
                fields.push((String::from_str("continue"), Json::Bool(*v)));
            }
            let ghost c1 = obj_fields_v(fields@);
            proof {
                assert(c1 =~= (match continue_ {
                    Some(v) => seq![("continue"@, JsonV::Bool(*v))],
                    None => Seq::<(Seq<char>, JsonV)>::empty(),
                }));
            }
            if let Some(v) = suppress_output {
                fields.push((String::from_str("suppressOutput"), Json::Bool(*v)));
            }
            let ghost c2 = obj_fields_v(fields@);
            proof {
                assert(c2 =~= c1 + (match suppress_output {
                    Some(v) => seq![("suppressOutput"@, JsonV::Bool(*v))],
                    None => Seq::<(Seq<char>, JsonV)>::empty(),
                }));
            }
            if let Some(v) = stop_reason {
                fields.push((String::from_str("stopReason"), Json::Str(v.clone())));
            }
            let ghost c3 = obj_fields_v(fields@);
            proof {
                assert(c3 =~= c2 + (match stop_reason {
                    Some(v) => seq![("stopReason"@, JsonV::Str(v@))],
                    None => Seq::<(Seq<char>, JsonV)>::empty(),
                }));
            }
            if let Some(v) = decision {
                fields.push((String::from_str("decision"), Json::Str(v.clone())));
            }
            let ghost c4 = obj_fields_v(fields@);
            proof {
                assert(c4 =~= c3 + (match decision {
                    Some(v) => seq![("decision"@, JsonV::Str(v@))],
                    None => Seq::<(Seq<char>, JsonV)>::empty(),
                }));
            }
            if let Some(v) = system_message {
                fields.push((String::from_str("systemMessage"), Json::Str(v.clone())));
            }
            let ghost c5 = obj_fields_v(fields@);
            proof {
                assert(c5 =~= c4 + (match system_message {
                    Some(v) => seq![("systemMessage"@, JsonV::Str(v@))],
                    None => Seq::<(Seq<char>, JsonV)>::empty(),
                }));
            }
            if let Some(v) = reason {
                fields.push((String::from_str("reason"), Json::Str(v.clone())));
            }
            let ghost c6 = obj_fields_v(fields@);
            proof {
                assert(c6 =~= c5 + (match reason {
                    Some(v) => seq![("reason"@, JsonV::Str(v@))],
                    None => Seq::<(Seq<char>, JsonV)>::empty(),
                }));
            }
            if let Some(v) = hook_specific_output {
                fields.push((String::from_str("hookSpecificOutput"), v.clone()));
            }
            let ghost c7 = obj_fields_v(fields@);
            proof {
                assert(c7 =~= c6 + (match hook_specific_output {
                    Some(v) => seq![("hookSpecificOutput"@, v.jv())],
                    None => Seq::<(Seq<char>, JsonV)>::empty(),
                }));
            }
            let r = Json::Obj(fields);
            proof {
                lemma_obj_fields(fields);
                assert(c7 =~= hook_output_fields_v(*output));
                assert(r.jv() =~= JsonV::Obj(hook_output_fields_v(*output)));
            }
            r
        },
    }
}

/// Read the permission-update suggestions a server request carries.
pub fn parse_permission_suggestions(value: Option<&Json>) -> (r: Vec<PermissionUpdate>) {
    let arr = match value {
        Some(v) => match v.as_array() {
            Some(a) => a,
            None => {
                return Vec::new();
            },
        },
        None => {
            return Vec::new();
        },
    };
    let mut out: Vec<PermissionUpdate> = Vec::new();
    let n = arr.len();
    let mut i: usize = 0;
    while i < n
        invariant
            i <= n,
            n == arr@.len(),
        decreases n - i,
    {
        let item = &arr[i];
        let type_ = match item.get_str("type") {
            Some(t) => t.clone(),
            None => {
                i += 1;
                continue ;
            },
        };
        let rules: Option<Vec<PermissionRuleValue>> = match item.get("rules") {
            Some(rv) => match rv.as_array() {
                Some(rarr) => {
                    let mut rules_out: Vec<PermissionRuleValue> = Vec::new();
                    let rn = rarr.len();
                    let mut k: usize = 0;
                    while k < rn
                        invariant
                            k <= rn,
                            rn == rarr@.len(),
                        decreases rn - k,
                    {
                        let robj = &rarr[k];
                        match robj.get_str("toolName") {
                            Some(tn) => {
                                let rule_content = match robj.get_str("ruleContent") {
                                    Some(rc) => Some(rc.clone()),
                                    None => None,
                                };
                                rules_out.push(
                                    PermissionRuleValue { tool_name: tn.clone(), rule_content },
                                );
                            },
                            None => {},
                        }
                        k += 1;
                    }
                    Some(rules_out)
                },
                None => None,
            },
            None => None,
        };
        let behavior = match item.get_str("behavior") {
            Some(b) => Some(b.clone()),
            None => None,
        };
        let mode = match item.get_str("mode") {
            Some(m) => Some(m.clone()),
            None => None,
        };
        let directories: Option<Vec<String>> = match item.get("directories") {
            Some(dv) => match dv.as_array() {
                Some(darr) => {
                    let mut dirs: Vec<String> = Vec::new();
                    let dn = darr.len();
                    let mut k: usize = 0;
                    while k < dn
                        invariant
                            k <= dn,
                            dn == darr@.len(),
                        decreases dn - k,
                    {
                        match darr[k].as_str() {
                            Some(d) => {
                                dirs.push(d.clone());
                            },
                            None => {},
                        }
                        k += 1;
                    }
                    Some(dirs)
                },
                None => None,
            },
            None => None,
        };
        let destination = match item.get_str("destination") {
            Some(d) => Some(d.clone()),
            None => None,
        };
        out.push(
            PermissionUpdate { type_, rules, behavior, mode, directories, destination },
        );
        i += 1;
    }
    out
}

/// The `hook_N` identifier for the `n`-th registered hook callback.
pub fn hook_callback_id(n: u64) -> (r: String)
    ensures
        r@ == "hook_"@ + dec_digits(n as int),
{
    let mut out: Vec<char> = Vec::new();
    out.push('h');
    out.push('o');
    out.push('o');
    out.push('k');
    out.push('_');
    proof {
        reveal_strlit("hook_");
        assert(out@ =~= "hook_"@);
    }
    push_u64_text(n, &mut out);
    chars_to_string(&out)
}

/// How many hook callbacks a matcher list registers.
pub open spec fn hook_count_v(ms: Seq<HookMatcher>) -> int
    decreases ms.len(),
{
    if ms.len() == 0 {
        0
    } else {
        ms[0].hooks + hook_count_v(ms.drop_first())
    }
}

/// How many hook callbacks the whole hooks table registers.
pub open spec fn hooks_total_v(entries: Seq<(HookEvent, Vec<HookMatcher>)>) -> int
    decreases entries.len(),
{
    if entries.len() == 0 {
        0
    } else {
        hook_count_v(entries[0].1@) + hooks_total_v(entries.drop_first())
    }
}

/// The wire identifier of the `n`-th registered callback.
pub open spec fn hook_id_v(n: int) -> JsonV {
    JsonV::Str("hook_"@ + dec_digits(n))
}

/// `count` consecutive callback identifiers starting at `start`.
pub open spec fn hook_ids_v(start: int, count: int) -> Seq<JsonV>
    decreases count,
{
    if count <= 0 {
        Seq::empty()
    } else {
        seq![hook_id_v(start)] + hook_ids_v(start + 1, count - 1)
    }
}

/// One matcher's wire entry, its callbacks numbered from `start`: the
/// matcher text (null when unset), the identifier list, and the timeout
/// when set.
pub open spec fn matcher_config_v(m: HookMatcher, start: int) -> JsonV {
    JsonV::Obj(
        seq![
            (
                "matcher"@,
                match m.matcher {
                    Some(s) => JsonV::Str(s@),
                    None => JsonV::Null,
                },
            ),
            ("hookCallbackIds"@, JsonV::Arr(hook_ids_v(start, m.hooks as int))),
        ] + (match m.timeout {
            Some(t) => seq![("timeout"@, JsonV::Num(t.jv()))],
            None => Seq::empty(),
        }),
    )
}

/// A matcher list's wire entries, callbacks numbered consecutively from
/// `start`.
pub open spec fn matcher_configs_v(ms: Seq<HookMatcher>, start: int) -> Seq<JsonV>
    decreases ms.len(),
{
    if ms.len() == 0 {
        Seq::empty()
    } else {
        seq![matcher_config_v(ms[0], start)] + matcher_configs_v(
            ms.drop_first(),
            start + ms[0].hooks,
        )
    }
}

/// The hooks table's wire fields: one entry per event with matchers, the
/// identifier numbering running consecutively across the whole table.
pub open spec fn hooks_config_fields_v(
    entries: Seq<(HookEvent, Vec<HookMatcher>)>,
    start: int,
) -> Seq<(Seq<char>, JsonV)>
    decreases entries.len(),
{
    if entries.len() == 0 {
        Seq::empty()
    } else {
        (if entries[0].1@.len() > 0 {
            seq![
                (
                    hook_event_label(entries[0].0),
                    JsonV::Arr(matcher_configs_v(entries[0].1@, start)),
                ),
            ]
        } else {
            Seq::empty()
        }) + hooks_config_fields_v(entries.drop_first(), start + hook_count_v(entries[0].1@))
    }
}

/// The hooks configuration a hooks table renders to: null when nothing is
/// registered, else the table's wire fields.
pub open spec fn hooks_config_json_v(hooks: Option<Vec<(HookEvent, Vec<HookMatcher>)>>) -> JsonV {
    match hooks {
        None => JsonV::Null,
        Some(entries) => if hooks_config_fields_v(entries@, 0).len() == 0 {
            JsonV::Null
        } else {
            JsonV::Obj(hooks_config_fields_v(entries@, 0))
        },
    }
}

proof fn lemma_hook_count_nonneg(ms: Seq<HookMatcher>)
    ensures
        hook_count_v(ms) >= 0,
    decreases ms.len(),
{
    if ms.len() > 0 {
        lemma_hook_count_nonneg(ms.drop_first());
    }
}

proof fn lemma_hooks_total_nonneg(entries: Seq<(HookEvent, Vec<HookMatcher>)>)
    ensures
        hooks_total_v(entries) >= 0,
    decreases entries.len(),
{
    if entries.len() > 0 {
        lemma_hook_count_nonneg(entries[0].1@);
        lemma_hooks_total_nonneg(entries.drop_first());
    }
}

/// Counting one more matcher adds its callbacks.
proof fn lemma_hook_count_step(ms: Seq<HookMatcher>, k: int)
    requires
        0 <= k < ms.len(),
    ensures
        hook_count_v(ms.take(k + 1)) == hook_count_v(ms.take(k)) + ms[k].hooks,
    decreases k,
{
    if k == 0 {
        assert(ms.take(1)[0] == ms[0]);
        assert(ms.take(1).drop_first() =~= Seq::<HookMatcher>::empty());
        assert(ms.take(0) =~= Seq::<HookMatcher>::empty());
    } else {
        lemma_hook_count_step(ms.drop_first(), k - 1);
        assert(ms.take(k + 1).drop_first() =~= ms.drop_first().take(k));
        assert(ms.take(k).drop_first() =~= ms.drop_first().take(k - 1));
        assert(ms.take(k + 1)[0] == ms[0]);
        assert(ms.take(k)[0] == ms[0]);
        assert(ms.drop_first()[k - 1] == ms[k]);
    }
}

/// A matcher-list prefix never counts more than the whole list.
proof fn lemma_hook_count_prefix(ms: Seq<HookMatcher>, k: int)
    requires
        0 <= k <= ms.len(),
    ensures
        hook_count_v(ms.take(k)) <= hook_count_v(ms),
        hook_count_v(ms.take(k)) >= 0,
    decreases k,
{
    lemma_hook_count_nonneg(ms.take(k));
    if k == 0 {
        assert(ms.take(0) =~= Seq::<HookMatcher>::empty());
        lemma_hook_count_nonneg(ms);
    } else {
        lemma_hook_count_prefix(ms.drop_first(), k - 1);
        assert(ms.take(k).drop_first() =~= ms.drop_first().take(k - 1));
        assert(ms.take(k)[0] == ms[0]);
    }
}

/// Counting one more event entry adds its matchers' callbacks.
proof fn lemma_hooks_total_step(entries: Seq<(HookEvent, Vec<HookMatcher>)>, i: int)
    requires
        0 <= i < entries.len(),
    ensures
        hooks_total_v(entries.take(i + 1)) == hooks_total_v(entries.take(i)) + hook_count_v(
            entries[i].1@,
        ),
    decreases i,
{
    if i == 0 {
        assert(entries.take(1)[0] == entries[0]);
        assert(entries.take(1).drop_first() =~= Seq::<(HookEvent, Vec<HookMatcher>)>::empty());
        assert(entries.take(0) =~= Seq::<(HookEvent, Vec<HookMatcher>)>::empty());
    } else {
        lemma_hooks_total_step(entries.drop_first(), i - 1);
        assert(entries.take(i + 1).drop_first() =~= entries.drop_first().take(i));
        assert(entries.take(i).drop_first() =~= entries.drop_first().take(i - 1));
        assert(entries.take(i + 1)[0] == entries[0]);
        assert(entries.take(i)[0] == entries[0]);
        assert(entries.drop_first()[i - 1] == entries[i]);
    }
}

/// An event-entry prefix never counts more than the whole table.
proof fn lemma_hooks_total_prefix(entries: Seq<(HookEvent, Vec<HookMatcher>)>, i: int)
    requires
        0 <= i <= entries.len(),
    ensures
        hooks_total_v(entries.take(i)) <= hooks_total_v(entries),
        hooks_total_v(entries.take(i)) >= 0,
    decreases i,
{
    lemma_hooks_total_nonneg(entries.take(i));
    if i == 0 {
        assert(entries.take(0) =~= Seq::<(HookEvent, Vec<HookMatcher>)>::empty());
        lemma_hooks_total_nonneg(entries);
    } else {
        lemma_hooks_total_prefix(entries.drop_first(), i - 1);
        assert(entries.take(i).drop_first() =~= entries.drop_first().take(i - 1));
        assert(entries.take(i)[0] == entries[0]);
    }
}

/// One more identifier extends the list at its end.
proof fn lemma_hook_ids_snoc(start: int, count: int)
    requires
        count >= 0,
    ensures
        hook_ids_v(start, count + 1) == hook_ids_v(start, count).push(hook_id_v(start + count)),
    decreases count,
{
    if count == 0 {
        assert(hook_ids_v(start + 1, 0) =~= Seq::<JsonV>::empty());
        assert(hook_ids_v(start, 0) =~= Seq::<JsonV>::empty());
        assert(hook_ids_v(start, 1) == seq![hook_id_v(start)] + hook_ids_v(start + 1, 0));
        assert(hook_ids_v(start, 1) =~= hook_ids_v(start, 0).push(hook_id_v(start)));
    } else {
        lemma_hook_ids_snoc(start + 1, count - 1);
        assert(hook_ids_v(start, count + 1) == seq![hook_id_v(start)] + hook_ids_v(
            start + 1,
            count,
        ));
        assert(hook_ids_v(start, count) == seq![hook_id_v(start)] + hook_ids_v(
            start + 1,
            count - 1,
        ));
        assert(hook_ids_v(start, count + 1) =~= hook_ids_v(start, count).push(
            hook_id_v(start + count),
        ));
    }
}

/// One more matcher extends the entry list by its entry, numbered after the
/// prefix's callbacks.
proof fn lemma_matcher_configs_step(ms: Seq<HookMatcher>, s0: int, k: int)
    requires
        0 <= k < ms.len(),
    ensures
        matcher_configs_v(ms.take(k + 1), s0) == matcher_configs_v(ms.take(k), s0) + seq![
            matcher_config_v(ms[k], s0 + hook_count_v(ms.take(k))),
        ],
    decreases k,
{
    if k == 0 {
        assert(ms.take(1)[0] == ms[0]);
        assert(ms.take(1).drop_first() =~= Seq::<HookMatcher>::empty());
        assert(ms.take(0) =~= Seq::<HookMatcher>::empty());
        assert(matcher_configs_v(Seq::<HookMatcher>::empty(), s0 + ms[0].hooks) =~= Seq::<
            JsonV,
        >::empty());
        assert(matcher_configs_v(ms.take(0), s0) =~= Seq::<JsonV>::empty());
        assert(hook_count_v(ms.take(0)) == 0);
        assert(matcher_configs_v(ms.take(1), s0) == seq![matcher_config_v(ms[0], s0)]
            + matcher_configs_v(ms.take(1).drop_first(), s0 + ms[0].hooks));
        assert(matcher_configs_v(ms.take(1), s0) =~= matcher_configs_v(ms.take(0), s0) + seq![
            matcher_config_v(ms[0], s0 + hook_count_v(ms.take(0))),
        ]);
    } else {
        lemma_matcher_configs_step(ms.drop_first(), s0 + ms[0].hooks, k - 1);
        assert(ms.take(k + 1).drop_first() =~= ms.drop_first().take(k));
        assert(ms.take(k).drop_first() =~= ms.drop_first().take(k - 1));
        assert(ms.take(k + 1)[0] == ms[0]);
        assert(ms.take(k)[0] == ms[0]);
        assert(ms.drop_first()[k - 1] == ms[k]);
        lemma_hook_count_step(ms, k);
        assert(hook_count_v(ms.take(k)) == ms[0].hooks + hook_count_v(ms.drop_first().take(k - 1)));
        assert(matcher_configs_v(ms.take(k + 1), s0) =~= matcher_configs_v(ms.take(k), s0) + seq![
            matcher_config_v(ms[k], s0 + hook_count_v(ms.take(k))),
        ]);
    }
}

/// One more event entry extends the table's fields by its entry (nothing
/// for an event without matchers), numbered after the prefix's callbacks.
proof fn lemma_hooks_fields_step(entries: Seq<(HookEvent, Vec<HookMatcher>)>, s0: int, i: int)
    requires
        0 <= i < entries.len(),
    ensures
        hooks_config_fields_v(entries.take(i + 1), s0) == hooks_config_fields_v(
            entries.take(i),
            s0,
        ) + (if entries[i].1@.len() > 0 {
            seq![
                (
                    hook_event_label(entries[i].0),
                    JsonV::Arr(
                        matcher_configs_v(
                            entries[i].1@,
                            s0 + hooks_total_v(entries.take(i)),
                        ),
                    ),
                ),
            ]
        } else {
            Seq::<(Seq<char>, JsonV)>::empty()
        }),
    decreases i,
{
    if i == 0 {
        assert(entries.take(1)[0] == entries[0]);
        assert(entries.take(1).drop_first() =~= Seq::<(HookEvent, Vec<HookMatcher>)>::empty());
        assert(entries.take(0) =~= Seq::<(HookEvent, Vec<HookMatcher>)>::empty());
        assert(hooks_config_fields_v(
            Seq::<(HookEvent, Vec<HookMatcher>)>::empty(),
            s0 + hook_count_v(entries[0].1@),
        ) =~= Seq::<(Seq<char>, JsonV)>::empty());
        assert(hooks_config_fields_v(entries.take(0), s0) =~= Seq::<(Seq<char>, JsonV)>::empty());
        assert(hooks_total_v(entries.take(0)) == 0);
        assert(hooks_config_fields_v(entries.take(1), s0) =~= hooks_config_fields_v(
            entries.take(0),
            s0,
        ) + (if entries[0].1@.len() > 0 {
            seq![
                (
                    hook_event_label(entries[0].0),
                    JsonV::Arr(
                        matcher_configs_v(entries[0].1@, s0 + hooks_total_v(entries.take(0))),
                    ),
                ),
            ]
        } else {
            Seq::<(Seq<char>, JsonV)>::empty()
        }));
    } else {
        lemma_hooks_fields_step(entries.drop_first(), s0 + hook_count_v(entries[0].1@), i - 1);
        assert(entries.take(i + 1).drop_first() =~= entries.drop_first().take(i));
        assert(entries.take(i).drop_first() =~= entries.drop_first().take(i - 1));
        assert(entries.take(i + 1)[0] == entries[0]);
        assert(entries.take(i)[0] == entries[0]);
        assert(entries.drop_first()[i - 1] == entries[i]);
        lemma_hooks_total_step(entries, i);
        assert(hooks_total_v(entries.take(i)) == hook_count_v(entries[0].1@) + hooks_total_v(
            entries.drop_first().take(i - 1),
        ));
        assert(hooks_config_fields_v(entries.take(i + 1), s0) =~= hooks_config_fields_v(
            entries.take(i),
            s0,
        ) + (if entries[i].1@.len() > 0 {
            seq![
                (
                    hook_event_label(entries[i].0),
                    JsonV::Arr(
                        matcher_configs_v(
                            entries[i].1@,
                            s0 + hooks_total_v(entries.take(i)),
                        ),
                    ),
                ),
            ]
        } else {
            Seq::<(Seq<char>, JsonV)>::empty()
        }));
    }
}

/// Whether the hooks table's callback count fits the identifier space: a
/// `true` answer establishes what [`build_hooks_config`] requires.
pub fn hooks_within_id_space(hooks: Option<&Vec<(HookEvent, Vec<HookMatcher>)>>) -> (r: bool)
    ensures
        r ==> (hooks matches Some(h) ==> hooks_total_v(h@) < u64::MAX),
{
    let entries = match hooks {
        Some(h) => h,
        None => {
            return true;
        },
    };
    let ghost ev = entries@;
    let mut acc: u64 = 0;
    let n = entries.len();
    let mut i: usize = 0;
    proof {
        assert(ev.take(0) =~= Seq::<(HookEvent, Vec<HookMatcher>)>::empty());
    }
    #[verifier::loop_isolation(false)]
    while i < n
        invariant
            i <= n,
            acc as int == hooks_total_v(ev.take(i as int)),
            acc < u64::MAX,
        decreases n - i,
    {
        let matchers = &entries[i].1;
        let ghost ms = matchers@;
        let mn = matchers.len();
        let mut k: usize = 0;
        proof {
            assert(ms.take(0) =~= Seq::<HookMatcher>::empty());
        }
        #[verifier::loop_isolation(false)]
        while k < mn
            invariant
                k <= mn,
                acc as int == hooks_total_v(ev.take(i as int)) + hook_count_v(
                    ms.take(k as int),
                ),
                acc < u64::MAX,
            decreases mn - k,
        {
            let count = matchers[k].hooks;
            if count as u64 >= u64::MAX - acc {
                return false;
            }
            acc = acc + count as u64;
            proof {
                lemma_hook_count_step(ms, k as int);
            }
            k += 1;
        }
        proof {
            assert(ms.take(mn as int) =~= ms);
            lemma_hooks_total_step(ev, i as int);
        }
        i += 1;
    }
    proof {
        assert(ev.take(n as int) =~= ev);
    }
    true
}

/// The hooks configuration of the initialize handshake: exactly
/// [`hooks_config_json_v`] — one entry per hook event with matchers, each
/// matcher carrying its matcher text, the wire identifiers of its callbacks
/// (numbered consecutively across the whole table), and its timeout; null
/// when nothing is registered.
#[verifier::rlimit(100)]
pub fn build_hooks_config(hooks: Option<&Vec<(HookEvent, Vec<HookMatcher>)>>) -> (r: Json)
    requires
        hooks matches Some(h) ==> hooks_total_v(h@) < u64::MAX,
    ensures
        ({
            let spec_cfg = match hooks {
                Some(h) => hooks_config_json_v(Some(*h)),
                None => JsonV::Null,
            };
            r.jv() == spec_cfg
        }),
{
    let entries = match hooks {
        Some(h) => h,
        None => {
            return Json::Null;
        },
    };
    let ghost ev = entries@;
    let mut config: Vec<(String, Json)> = Vec::new();
    let mut next_id: u64 = 0;
    let n = entries.len();
    let mut i: usize = 0;
    proof {
        assert(ev.take(0) =~= Seq::<(HookEvent, Vec<HookMatcher>)>::empty());
        assert(obj_fields_v(config@) =~= hooks_config_fields_v(ev.take(0), 0));
    }
    #[verifier::loop_isolation(false)]
    while i < n
        invariant
            i <= n,
            next_id as int == hooks_total_v(ev.take(i as int)),
            obj_fields_v(config@) == hooks_config_fields_v(ev.take(i as int), 0),
        decreases n - i,
    {
        let event = entries[i].0;
        let matchers = &entries[i].1;
        let ghost ms = matchers@;
        let ghost entry_start = next_id as int;
        proof {
            lemma_hooks_total_step(ev, i as int);
            lemma_hooks_total_prefix(ev, i + 1);
            lemma_hook_count_nonneg(ms);
            assert(entry_start + hook_count_v(ms) <= hooks_total_v(ev));
        }
        if matchers.len() > 0 {
            let mut matcher_configs: Vec<Json> = Vec::new();
            let mn = matchers.len();
            let mut k: usize = 0;
            proof {
                assert(ms.take(0) =~= Seq::<HookMatcher>::empty());
                assert(matcher_configs@.map_values(|j: Json| j.jv()) =~= matcher_configs_v(
                    ms.take(0),
                    entry_start,
                ));
            }
            #[verifier::loop_isolation(false)]
            while k < mn
                invariant
                    k <= mn,
                    next_id as int == entry_start + hook_count_v(ms.take(k as int)),
                    matcher_configs@.map_values(|j: Json| j.jv()) == matcher_configs_v(
                        ms.take(k as int),
                        entry_start,
                    ),
                decreases mn - k,
            {
                let m = &matchers[k];
                let ghost mstart = next_id as int;
                proof {
                    lemma_hook_count_step(ms, k as int);
                    lemma_hook_count_prefix(ms, k + 1);
                    assert(mstart + m.hooks <= entry_start + hook_count_v(ms));
                }
                let mut ids: Vec<Json> = Vec::new();
                let hn = m.hooks;
                let mut h: usize = 0;
                proof {
                    assert(ids@.map_values(|j: Json| j.jv()) =~= hook_ids_v(mstart, 0));
                }
                #[verifier::loop_isolation(false)]
                while h < hn
                    invariant
                        h <= hn,
                        next_id as int == mstart + h,
                        mstart + hn <= hooks_total_v(ev),
                        ids@.map_values(|j: Json| j.jv()) == hook_ids_v(mstart, h as int),
                    decreases hn - h,
                {
                    ids.push(Json::Str(hook_callback_id(next_id)));
                    proof {
                        lemma_hook_ids_snoc(mstart, h as int);
                        assert(ids@.map_values(|j: Json| j.jv()) =~= hook_ids_v(
                            mstart,
                            h + 1,
                        ));
                    }
                    next_id = next_id + 1;
                    h += 1;
                }
                let ids_json = Json::Arr(ids);
                proof {
                    crate::json::lemma_arr_view(ids);
                    assert(ids_json.jv() =~= JsonV::Arr(hook_ids_v(mstart, hn as int)));
                }
                let mut mcf: Vec<(String, Json)> = Vec::new();
                let matcher_val = match &m.matcher {
                    Some(s) => Json::Str(s.clone()),
                    None => Json::Null,
                };
                mcf.push((String::from_str("matcher"), matcher_val));
                mcf.push((String::from_str("hookCallbackIds"), ids_json));
                if let Some(t) = &m.timeout {
                    mcf.push((String::from_str("timeout"), Json::Num(t.clone())));
                }
                let mc = Json::Obj(mcf);
                proof {
                    lemma_obj_fields(mcf);
                    assert(obj_fields_v(mcf@) =~= matcher_config_v(ms[k as int], mstart)->Obj_0);
                    assert(mc.jv() =~= matcher_config_v(ms[k as int], mstart));
                }
                matcher_configs.push(mc);
                proof {
                    lemma_matcher_configs_step(ms, entry_start, k as int);
                    assert(matcher_configs@.map_values(|j: Json| j.jv())
                        =~= matcher_configs_v(ms.take(k + 1), entry_start));
                    lemma_hook_count_step(ms, k as int);
                }
                k += 1;
            }
            let arr = Json::Arr(matcher_configs);
            proof {
                crate::json::lemma_arr_view(matcher_configs);
                assert(ms.take(mn as int) =~= ms);
                assert(arr.jv() =~= JsonV::Arr(matcher_configs_v(ms, entry_start)));
            }
            config.push((String::from_str(event.label()), arr));
        }
        proof {
            lemma_hooks_fields_step(ev, 0, i as int);
            assert(obj_fields_v(config@) =~= hooks_config_fields_v(ev.take(i + 1), 0));
            lemma_hooks_total_step(ev, i as int);
            if ms.len() == 0 {
                assert(hook_count_v(ms) == 0);
            }
        }
        i += 1;
    }
    proof {
        assert(ev.take(n as int) =~= ev);
    }
    if config.len() == 0 {
        proof {
            assert(hooks_config_fields_v(ev, 0).len() == 0);
        }
        Json::Null
    } else {
        let r = Json::Obj(config);
        proof {
            lemma_obj_fields(config);
        }
        r
    }
}

/// The JSON form of a named agent definition: description and prompt, then
/// the tool list and model exactly when set.
pub open spec fn agent_def_json_v(d: AgentDefinition) -> JsonV {
    JsonV::Obj(
        seq![
            ("description"@, JsonV::Str(d.description@)),
            ("prompt"@, JsonV::Str(d.prompt@)),
        ] + (match d.tools {
            Some(tools) => seq![
                ("tools"@, JsonV::Arr(tools@.map_values(|t: String| JsonV::Str(t@)))),
            ],
            None => Seq::empty(),
        }) + (match d.model {
            Some(m) => seq![("model"@, JsonV::Str(crate::options::agent_model_label(m)))],
            None => Seq::empty(),
        }),
    )
}

/// The agents table: null when absent or empty, else one field per agent
/// with its definition.
pub open spec fn agents_json_v(agents: Option<Vec<(String, AgentDefinition)>>) -> JsonV {
    match agents {
        None => JsonV::Null,
        Some(a) => if a@.len() == 0 {
            JsonV::Null
        } else {
            JsonV::Obj(
                a@.map_values(
                    |kv: (String, AgentDefinition)| (kv.0@, agent_def_json_v(kv.1)),
                ),
            )
        },
    }
}

/// Render one named agent definition: exactly [`agent_def_json_v`].
pub fn agent_definition_json(def: &AgentDefinition) -> (r: Json)
    ensures
        r.jv() == agent_def_json_v(*def),
{
    let mut fields: Vec<(String, Json)> = Vec::new();
    fields.push((String::from_str("description"), Json::Str(def.description.clone())));
    fields.push((String::from_str("prompt"), Json::Str(def.prompt.clone())));
    if let Some(tools) = &def.tools {
        let mut arr: Vec<Json> = Vec::new();
        let n = tools.len();
        let mut i: usize = 0;
        #[verifier::loop_isolation(false)]
        while i < n
            invariant
                i <= n,
                arr@.len() == i,
                forall|j: int| 0 <= j < i ==> arr@[j].jv() == JsonV::Str(tools@[j]@),
            decreases n - i,
        {
            arr.push(Json::Str(tools[i].clone()));
            i += 1;
        }
        let tools_json = Json::Arr(arr);
        proof {
            crate::json::lemma_arr_view(arr);
            assert(arr@.map_values(|j: Json| j.jv()) =~= tools@.map_values(
                |t: String| JsonV::Str(t@),
            ));
            assert(tools_json.jv() =~= JsonV::Arr(
                tools@.map_values(|t: String| JsonV::Str(t@)),
            ));
        }
        fields.push((String::from_str("tools"), tools_json));
    }
    if let Some(m) = &def.model {
        fields.push((String::from_str("model"), Json::str_of(m.label())));
    }
    let r = Json::Obj(fields);
    proof {
        lemma_obj_fields(fields);
        assert(obj_fields_v(fields@) =~= agent_def_json_v(*def)->Obj_0);
        assert(r.jv() =~= agent_def_json_v(*def));
    }
    r
}

/// The initialize request payload: its subtype, the hooks configuration of
/// [`hooks_config_json_v`], and the agents table of [`agents_json_v`].
pub open spec fn init_payload_v(o: AgentOptions) -> JsonV {
    JsonV::Obj(
        seq![
            ("subtype"@, JsonV::Str("initialize"@)),
            ("hooks"@, hooks_config_json_v(o.hooks)),
            ("agents"@, agents_json_v(o.agents)),
        ],
    )
}

/// Build the initialize request payload: exactly [`init_payload_v`].
pub fn build_init_payload(options: &AgentOptions) -> (r: Json)
    requires
        options.hooks matches Some(h) ==> hooks_total_v(h@) < u64::MAX,
    ensures
        r.jv() == init_payload_v(*options),
{
    let hooks_config = build_hooks_config(options.hooks.as_ref());
    proof {
        assert(hooks_config.jv() == hooks_config_json_v(options.hooks));
    }
    let agents_json: Json = match &options.agents {
        Some(agents) => {
            if agents.len() == 0 {
                Json::Null
            } else {
                let mut fields: Vec<(String, Json)> = Vec::new();
                let n = agents.len();
                let mut i: usize = 0;
                #[verifier::loop_isolation(false)]
                while i < n
                    invariant
                        i <= n,
                        fields@.len() == i,
                        forall|j: int|
                            0 <= j < i ==> fields@[j].0@ == agents@[j].0@ && fields@[j].1.jv()
                                == agent_def_json_v(agents@[j].1),
                    decreases n - i,
                {
                    let name = agents[i].0.clone();
                    let def_json = agent_definition_json(&agents[i].1);
                    fields.push((name, def_json));
                    i += 1;
                }
                let table = Json::Obj(fields);
                proof {
                    lemma_obj_fields(fields);
                    assert(obj_fields_v(fields@) =~= agents@.map_values(
                        |kv: (String, AgentDefinition)| (kv.0@, agent_def_json_v(kv.1)),
                    ));
                    assert(table.jv() =~= agents_json_v(options.agents));
                }
                table
            }
        },
        None => Json::Null,
    };
    let mut fields: Vec<(String, Json)> = Vec::new();
    fields.push((String::from_str("subtype"), Json::str_of("initialize")));
    fields.push((String::from_str("hooks"), hooks_config));
    fields.push((String::from_str("agents"), agents_json));
    let r = Json::Obj(fields);
    proof {
        lemma_obj_fields(fields);
        assert(obj_fields_v(fields@) =~= init_payload_v(*options)->Obj_0);
        assert(r.jv() =~= init_payload_v(*options));
    }
    r
}

/// What an in-process tool-server request asks the runtime to do: answer
/// with a ready payload, or run the named tool and answer with its result.
#[derive(Debug)]
pub enum McpOutcome {
    /// Answer at once with this full `mcp_response` payload.
    Reply(Json),
    /// Run the named tool on the arguments, then wrap its result with
    /// [`mcp_wrap_result`] under the given request id.
    CallTool { name: String, arguments: Json, id: Json },
}

/// The `mcp_response` envelope around a JSON-RPC result.
pub open spec fn mcp_response_v(id: JsonV, result: JsonV) -> JsonV {
    JsonV::Obj(seq![("mcp_response"@, crate::codex::jsonrpc::response_v(id, result))])
}

/// The result answering a tool server's `initialize`.
pub open spec fn mcp_initialize_result_v(server: McpSdkConfig) -> JsonV {
    JsonV::Obj(
        seq![
            ("protocolVersion"@, JsonV::Str("2024-11-05"@)),
            ("capabilities"@, JsonV::Obj(seq![("tools"@, JsonV::Obj(Seq::empty()))])),
            (
                "serverInfo"@,
                JsonV::Obj(
                    seq![
                        ("name"@, JsonV::Str(server.name@)),
                        ("version"@, JsonV::Str(server.version@)),
                    ],
                ),
            ),
        ],
    )
}

/// One tool's entry in a `tools/list` answer.
pub open spec fn mcp_tool_entry_v(t: crate::options::SdkMcpTool) -> JsonV {
    JsonV::Obj(
        seq![
            ("name"@, JsonV::Str(t.name@)),
            ("description"@, JsonV::Str(t.description@)),
            ("inputSchema"@, t.input_schema.jv()),
        ],
    )
}

/// The result answering a tool server's `tools/list`.
pub open spec fn mcp_tools_list_result_v(server: McpSdkConfig) -> JsonV {
    JsonV::Obj(
        seq![
            (
                "tools"@,
                JsonV::Arr(
                    server.tools@.map_values(
                        |t: crate::options::SdkMcpTool| mcp_tool_entry_v(t),
                    ),
                ),
            ),
        ],
    )
}

/// Whether the server defines a tool of the given name.
pub open spec fn server_has_tool(server: McpSdkConfig, name: Seq<char>) -> bool {
    exists|i: int| 0 <= i < server.tools@.len() && server.tools@[i].name@ == name
}

/// The request id a tool-server message carries, null when absent.
pub open spec fn mcp_message_id_v(m: JsonV) -> JsonV {
    match jv_get(m, "id"@) {
        Some(v) => v,
        None => JsonV::Null,
    }
}

/// The parameters a tool-server message carries, empty when absent.
pub open spec fn mcp_message_params_v(m: JsonV) -> JsonV {
    match jv_get(m, "params"@) {
        Some(v) => v,
        None => JsonV::Obj(Seq::empty()),
    }
}

/// A fresh empty JSON object.
fn empty_obj() -> (r: Json)
    ensures
        r.jv() == JsonV::Obj(Seq::empty()),
{
    let r = Json::Obj(Vec::new());
    proof {
        assert(r.jv()->Obj_0 =~= Seq::<(Seq<char>, JsonV)>::empty());
        assert(r.jv() =~= JsonV::Obj(Seq::empty()));
    }
    r
}

/// The `mcp_response` envelope around a JSON-RPC result.
pub fn mcp_wrap_result(id: Json, result: Json) -> (r: Json)
    ensures
        r.jv() == mcp_response_v(id.jv(), result.jv()),
{
    let ghost idv = id.jv();
    let ghost resv = result.jv();
    let inner = crate::codex::jsonrpc::build_response(id, result);
    let mut fields: Vec<(String, Json)> = Vec::new();
    fields.push((String::from_str("mcp_response"), inner));
    let r = Json::Obj(fields);
    proof {
        lemma_obj_fields(fields);
        assert(obj_fields_v(fields@) =~= mcp_response_v(idv, resv)->Obj_0);
        assert(r.jv() =~= mcp_response_v(idv, resv));
    }
    r
}

/// Route one in-process tool-server message, without running any tool:
/// `initialize` and `tools/list` are answered exactly from the server
/// definition, `tools/call` hands a tool the server defines back to the
/// runtime with its arguments and request id, and everything else is
/// refused with the exact error text.
#[verifier::rlimit(100)]
pub fn mcp_request_response(server: &McpSdkConfig, message: &Json) -> (r: Result<McpOutcome, Error>)
    ensures
        ({
            let method = crate::codex::message_parser::str_or_empty(message.jv(), "method"@);
            let idv = mcp_message_id_v(message.jv());
            let paramsv = mcp_message_params_v(message.jv());
            if method == "initialize"@ {
                r matches Ok(McpOutcome::Reply(p)) && p.jv() == mcp_response_v(
                    idv,
                    mcp_initialize_result_v(*server),
                )
            } else if method == "notifications/initialized"@ {
                r matches Ok(McpOutcome::Reply(p)) && p.jv() == mcp_response_v(
                    idv,
                    JsonV::Obj(Seq::empty()),
                )
            } else if method == "tools/list"@ {
                r matches Ok(McpOutcome::Reply(p)) && p.jv() == mcp_response_v(
                    idv,
                    mcp_tools_list_result_v(*server),
                )
            } else if method == "tools/call"@ {
                match jv_get_str(paramsv, "name"@) {
                    None => r matches Err(Error::Other(m)) && m@
                        == "tools/call missing tool name"@,
                    Some(tool_name) => if server_has_tool(*server, tool_name) {
                        r matches Ok(McpOutcome::CallTool { name, arguments, id }) && name@
                            == tool_name && arguments.jv() == (match jv_get(
                            paramsv,
                            "arguments"@,
                        ) {
                            Some(a) => a,
                            None => JsonV::Obj(Seq::empty()),
                        }) && id.jv() == idv
                    } else {
                        r matches Err(Error::Other(m)) && m@ == "Tool '"@ + tool_name
                            + "' not found in server '"@ + server.name@ + "'"@
                    },
                }
            } else {
                r matches Err(Error::Other(m)) && m@ == "Unsupported MCP method: "@ + method
            }
        }),
{
    proof {
        reveal_strlit("initialize");
        reveal_strlit("notifications/initialized");
        reveal_strlit("tools/list");
        reveal_strlit("tools/call");
        assert("initialize"@[0] != "tools/list"@[0]);
        assert("initialize"@[0] != "tools/call"@[0]);
        assert("initialize"@.len() != "notifications/initialized"@.len());
        assert("notifications/initialized"@.len() != "tools/list"@.len());
        assert("notifications/initialized"@.len() != "tools/call"@.len());
        assert("tools/list"@[6] != "tools/call"@[6]);
    }
    let method: String = match message.get_str("method") {
        Some(m) => m.clone(),
        None => String::new(),
    };
    let jsonrpc_id = match message.get("id") {
        Some(v) => v.clone(),
        None => Json::Null,
    };
    let params = match message.get("params") {
        Some(v) => v.clone(),
        None => Json::Obj(Vec::new()),
    };
    proof {
        if jv_get(message.jv(), "params"@) is None {
            assert(params.jv()->Obj_0 =~= Seq::<(Seq<char>, JsonV)>::empty());
            assert(params.jv() =~= JsonV::Obj(Seq::empty()));
        }
    }
    let m = method.as_str();
    if str_eq(m, "initialize") {
        let ghost spec_r = mcp_initialize_result_v(*server);
        let mut caps: Vec<(String, Json)> = Vec::new();
        caps.push((String::from_str("tools"), empty_obj()));
        let caps_json = Json::Obj(caps);
        proof {
            lemma_obj_fields(caps);
            assert(obj_fields_v(caps@) =~= spec_r->Obj_0[1].1->Obj_0);
            assert(caps_json.jv() =~= spec_r->Obj_0[1].1);
        }
        let mut info: Vec<(String, Json)> = Vec::new();
        info.push((String::from_str("name"), Json::Str(server.name.clone())));
        info.push((String::from_str("version"), Json::Str(server.version.clone())));
        let info_json = Json::Obj(info);
        proof {
            lemma_obj_fields(info);
            assert(obj_fields_v(info@) =~= spec_r->Obj_0[2].1->Obj_0);
            assert(info_json.jv() =~= spec_r->Obj_0[2].1);
        }
        let mut result: Vec<(String, Json)> = Vec::new();
        result.push((String::from_str("protocolVersion"), Json::str_of("2024-11-05")));
        result.push((String::from_str("capabilities"), caps_json));
        result.push((String::from_str("serverInfo"), info_json));
        let result_json = Json::Obj(result);
        proof {
            lemma_obj_fields(result);
            assert(obj_fields_v(result@) =~= spec_r->Obj_0);
            assert(result_json.jv() =~= spec_r);
        }
        Ok(McpOutcome::Reply(mcp_wrap_result(jsonrpc_id, result_json)))
    } else if str_eq(m, "notifications/initialized") {
        let empty = empty_obj();
        Ok(McpOutcome::Reply(mcp_wrap_result(jsonrpc_id, empty)))
    } else if str_eq(m, "tools/list") {
        let mut tools: Vec<Json> = Vec::new();
        let n = server.tools.len();
        let mut i: usize = 0;
        #[verifier::loop_isolation(false)]
        while i < n
            invariant
                i <= n,
                tools@.len() == i,
                forall|j: int| 0 <= j < i ==> tools@[j].jv() == mcp_tool_entry_v(
                    server.tools@[j],
                ),
            decreases n - i,
        {
            let mut t: Vec<(String, Json)> = Vec::new();
            t.push((String::from_str("name"), Json::Str(server.tools[i].name.clone())));
            t.push(
                (String::from_str("description"), Json::Str(server.tools[i].description.clone())),
            );
            t.push((String::from_str("inputSchema"), server.tools[i].input_schema.clone()));
            let entry = Json::Obj(t);
            proof {
                lemma_obj_fields(t);
                assert(obj_fields_v(t@) =~= mcp_tool_entry_v(server.tools@[i as int])->Obj_0);
                assert(entry.jv() =~= mcp_tool_entry_v(server.tools@[i as int]));
            }
            tools.push(entry);
            i += 1;
        }
        let ghost spec_r = mcp_tools_list_result_v(*server);
        let tools_json = Json::Arr(tools);
        proof {
            crate::json::lemma_arr_view(tools);
            assert(tools@.map_values(|j: Json| j.jv()) =~= spec_r->Obj_0[0].1->Arr_0);
            assert(tools_json.jv() =~= spec_r->Obj_0[0].1);
        }
        let mut result: Vec<(String, Json)> = Vec::new();
        result.push((String::from_str("tools"), tools_json));
        let result_json = Json::Obj(result);
        proof {
            lemma_obj_fields(result);
            assert(obj_fields_v(result@) =~= spec_r->Obj_0);
            assert(result_json.jv() =~= spec_r);
        }
        Ok(McpOutcome::Reply(mcp_wrap_result(jsonrpc_id, result_json)))
    } else if str_eq(m, "tools/call") {
        let tool_name: String = match params.get_str("name") {
            Some(n) => n.clone(),
            None => {
                return Err(Error::Other(String::from_str("tools/call missing tool name")));
            },
        };
        let arguments = match params.get("arguments") {
            Some(a) => a.clone(),
            None => Json::Obj(Vec::new()),
        };
        proof {
            if jv_get(params.jv(), "arguments"@) is None {
                assert(arguments.jv()->Obj_0 =~= Seq::<(Seq<char>, JsonV)>::empty());
                assert(arguments.jv() =~= JsonV::Obj(Seq::empty()));
            }
        }
        let mut found = false;
        let n = server.tools.len();
        let mut i: usize = 0;
        #[verifier::loop_isolation(false)]
        while i < n
            invariant
                i <= n,
                found <==> exists|j: int|
                    0 <= j < i && server.tools@[j].name@ == tool_name@,
            decreases n - i,
        {
            if str_eq(server.tools[i].name.as_str(), tool_name.as_str()) {
                found = true;
            }
            i += 1;
        }
        if found {
            Ok(McpOutcome::CallTool { name: tool_name, arguments, id: jsonrpc_id })
        } else {
            let head = concat_str("Tool '", tool_name.as_str());
            let mid = concat_str(head.as_str(), "' not found in server '");
            let tail = concat_str(mid.as_str(), server.name.as_str());
            Err(Error::Other(concat_str(tail.as_str(), "'")))
        }
    } else {
        let msg = concat_str("Unsupported MCP method: ", m);
        Err(Error::Other(msg))
    }
}

} // verus!
