//! JSON-RPC 2.0 helpers for the app-server protocol.

use vstd::prelude::*;

use crate::json::{jv_get, jv_get_str, jv_get_u64, Json, JsonNum, JsonNumV, JsonV};

verus! {

/// Sequential JSON-RPC request id generator.
#[derive(Debug)]
pub struct RequestIdGenerator {
    counter: u64,
}

impl RequestIdGenerator {
    /// The id the generator will hand out next.
    pub closed spec fn next(&self) -> u64 {
        self.counter
    }

    /// A generator whose first id is 1.
    pub fn new() -> (r: Self)
        ensures
            r.next() == 1,
    {
        RequestIdGenerator { counter: 1 }
    }

    /// The id the generator will hand out next, for callers that must
    /// check the machine limit before asking for it.
    pub fn peek(&self) -> (r: u64)
        ensures
            r == self.next(),
    {
        self.counter
    }

    /// Hand out the next id: ids count up one by one from 1.
    pub fn next_id(&mut self) -> (r: u64)
        requires
            old(self).next() < u64::MAX,
        ensures
            r == old(self).next(),
            final(self).next() == old(self).next() + 1,
    {
        let id = self.counter;
        self.counter = self.counter + 1;
        id
    }
}

impl Default for RequestIdGenerator {
    /// Same as [`RequestIdGenerator::new`].
    fn default() -> (r: Self)
        ensures
            r.next() == 1,
    {
        RequestIdGenerator::new()
    }
}

/// A JSON-RPC 2.0 request: envelope, id, method, parameters.
pub open spec fn request_v(id: u64, method: Seq<char>, params: JsonV) -> JsonV {
    JsonV::Obj(
        seq![
            ("jsonrpc"@, JsonV::Str("2.0"@)),
            ("id"@, JsonV::Num(JsonNumV::Int(id as int))),
            ("method"@, JsonV::Str(method)),
            ("params"@, params),
        ],
    )
}

/// A JSON-RPC 2.0 notification: a request without an id.
pub open spec fn notification_v(method: Seq<char>, params: JsonV) -> JsonV {
    JsonV::Obj(
        seq![
            ("jsonrpc"@, JsonV::Str("2.0"@)),
            ("method"@, JsonV::Str(method)),
            ("params"@, params),
        ],
    )
}

/// A JSON-RPC 2.0 response carrying a result.
pub open spec fn response_v(id: JsonV, result: JsonV) -> JsonV {
    JsonV::Obj(
        seq![("jsonrpc"@, JsonV::Str("2.0"@)), ("id"@, id), ("result"@, result)],
    )
}

/// A JSON-RPC 2.0 error response.
pub open spec fn error_response_v(id: JsonV, code: int, message: Seq<char>) -> JsonV {
    JsonV::Obj(
        seq![
            ("jsonrpc"@, JsonV::Str("2.0"@)),
            ("id"@, id),
            (
                "error"@,
                JsonV::Obj(
                    seq![
                        ("code"@, JsonV::Num(JsonNumV::Int(code))),
                        ("message"@, JsonV::Str(message)),
                    ],
                ),
            ),
        ],
    )
}

/// Build a JSON-RPC 2.0 request.
pub fn build_request(id: u64, method: &str, params: Json) -> (r: Json)
    requires
        id <= i64::MAX,
    ensures
        r.jv() == request_v(id, method@, params.jv()),
{
    let ghost pv = params.jv();
    let mut fields: Vec<(String, Json)> = Vec::new();
    fields.push((String::from_str("jsonrpc"), Json::str_of("2.0")));
    fields.push((String::from_str("id"), Json::Num(JsonNum::Int(id as i64))));
    fields.push((String::from_str("method"), Json::str_of(method)));
    fields.push((String::from_str("params"), params));
    let r = Json::Obj(fields);
    proof {
        crate::json::lemma_obj_fields(fields);
        assert(crate::json::obj_fields_v(fields@) =~= request_v(id, method@, pv)->Obj_0);
        assert(r.jv() =~= request_v(id, method@, pv));
    }
    r
}

/// Build a JSON-RPC 2.0 notification (no `id` field).
pub fn build_notification(method: &str, params: Json) -> (r: Json)
    ensures
        r.jv() == notification_v(method@, params.jv()),
{
    let ghost pv = params.jv();
    let mut fields: Vec<(String, Json)> = Vec::new();
    fields.push((String::from_str("jsonrpc"), Json::str_of("2.0")));
    fields.push((String::from_str("method"), Json::str_of(method)));
    fields.push((String::from_str("params"), params));
    let r = Json::Obj(fields);
    proof {
        crate::json::lemma_obj_fields(fields);
        assert(crate::json::obj_fields_v(fields@) =~= notification_v(method@, pv)->Obj_0);
        assert(r.jv() =~= notification_v(method@, pv));
    }
    r
}

/// Build a JSON-RPC 2.0 response (for replying to server requests).
pub fn build_response(id: Json, result: Json) -> (r: Json)
    ensures
        r.jv() == response_v(id.jv(), result.jv()),
{
    let ghost idv = id.jv();
    let ghost rv = result.jv();
    let mut fields: Vec<(String, Json)> = Vec::new();
    fields.push((String::from_str("jsonrpc"), Json::str_of("2.0")));
    fields.push((String::from_str("id"), id));
    fields.push((String::from_str("result"), result));
    let r = Json::Obj(fields);
    proof {
        crate::json::lemma_obj_fields(fields);
        assert(crate::json::obj_fields_v(fields@) =~= response_v(idv, rv)->Obj_0);
        assert(r.jv() =~= response_v(idv, rv));
    }
    r
}

/// Build a JSON-RPC 2.0 error response.
pub fn build_error_response(id: Json, code: i64, message: &str) -> (r: Json)
    ensures
        r.jv() == error_response_v(id.jv(), code as int, message@),
{
    let ghost idv = id.jv();
    let mut err_fields: Vec<(String, Json)> = Vec::new();
    err_fields.push((String::from_str("code"), Json::Num(JsonNum::Int(code))));
    err_fields.push((String::from_str("message"), Json::str_of(message)));
    let err = Json::Obj(err_fields);
    proof {
        crate::json::lemma_obj_fields(err_fields);
        assert(crate::json::obj_fields_v(err_fields@) =~= error_response_v(
            idv,
            code as int,
            message@,
        )->Obj_0[2].1->Obj_0);
        assert(err.jv() =~= error_response_v(idv, code as int, message@)->Obj_0[2].1);
    }
    let mut fields: Vec<(String, Json)> = Vec::new();
    fields.push((String::from_str("jsonrpc"), Json::str_of("2.0")));
    fields.push((String::from_str("id"), id));
    fields.push((String::from_str("error"), err));
    let r = Json::Obj(fields);
    proof {
        crate::json::lemma_obj_fields(fields);
        assert(crate::json::obj_fields_v(fields@) =~= error_response_v(
            idv,
            code as int,
            message@,
        )->Obj_0);
        assert(r.jv() =~= error_response_v(idv, code as int, message@));
    }
    r
}

/// Whether a message is a response: it has `id` and `result` or `error`.
pub open spec fn is_response_v(m: JsonV) -> bool {
    jv_get(m, "id"@) is Some && (jv_get(m, "result"@) is Some || jv_get(m, "error"@) is Some)
}

/// Whether a message is a request: it has `id` and `method`.
pub open spec fn is_request_v(m: JsonV) -> bool {
    jv_get(m, "id"@) is Some && jv_get(m, "method"@) is Some
}

/// Whether a message is a notification: it has `method` but no `id`.
pub open spec fn is_notification_v(m: JsonV) -> bool {
    jv_get(m, "method"@) is Some && jv_get(m, "id"@) is None
}

/// Check if a JSON-RPC message is a response (has `id` and `result` or `error`).
pub fn is_response(msg: &Json) -> (r: bool)
    ensures
        r == is_response_v(msg.jv()),
{
    msg.get("id").is_some() && (msg.get("result").is_some() || msg.get("error").is_some())
}

/// Check if a JSON-RPC message is a request (has `id` and `method`).
pub fn is_request(msg: &Json) -> (r: bool)
    ensures
        r == is_request_v(msg.jv()),
{
    msg.get("id").is_some() && msg.get("method").is_some()
}

/// Check if a JSON-RPC message is a notification (has `method` but no `id`).
pub fn is_notification(msg: &Json) -> (r: bool)
    ensures
        r == is_notification_v(msg.jv()),
{
    msg.get("method").is_some() && msg.get("id").is_none()
}

/// Extract the method name from a JSON-RPC request or notification.
pub fn get_method<'a>(msg: &'a Json) -> (r: Option<&'a String>)
    ensures
        match r {
            Some(m) => jv_get_str(msg.jv(), "method"@) == Some(m@),
            None => jv_get_str(msg.jv(), "method"@) is None,
        },
{
    msg.get_str("method")
}

/// Extract the request id from a JSON-RPC request or response.
pub fn get_id(msg: &Json) -> (r: Option<u64>)
    ensures
        match r {
            Some(id) => jv_get_u64(msg.jv(), "id"@) == Some(id as int),
            None => jv_get_u64(msg.jv(), "id"@) is None,
        },
{
    msg.get_u64("id")
}

} // verus!
