//! Codec for the persistent control-protocol backend's `stream-json` output.
//!
//! `parse_message` maps one already-decoded JSON event onto the message
//! model. Unknown event types yield `Ok(None)` (forward compatibility); a
//! recognised type missing a required field yields a parse error naming the
//! field; missing optional fields take their defined defaults.

use vstd::prelude::*;

use crate::error::Error;
use crate::json::{jv_get, jv_get_bool, jv_get_str, jv_get_u64, Json, JsonV};
use crate::text::concat_str;
use crate::types::{
    codec_result_v, view_blocks, AssistantMessage, AssistantMessageV,
    ContentBlock, ContentBlockV, Message, MessageV, ResultMessage, ResultMessageV, StreamEvent,
    StreamEventV, SystemMessage, SystemMessageV, TextBlock, ThinkingBlock, ToolResultBlock,
    ToolUseBlock, UserContent, UserContentV, UserMessage, UserMessageV,
};
use crate::options::{assistant_error_of, AssistantMessageError};

verus! {

broadcast use vstd::string::group_string_axioms;

/// The JSON kind of a value, as named in parse errors.
pub open spec fn json_kind_text(j: JsonV) -> Seq<char> {
    match j {
        JsonV::Null => "null"@,
        JsonV::Bool(_) => "bool"@,
        JsonV::Num(_) => "number"@,
        JsonV::Str(_) => "string"@,
        JsonV::Arr(_) => "array"@,
        JsonV::Obj(_) => "object"@,
    }
}

/// One content block of the wire format, mapped to the model.
pub open spec fn parse_content_block_v(b: JsonV) -> Result<Option<ContentBlockV>, Seq<char>> {
    if !(b is Obj) {
        Err("Content block must be object"@)
    } else {
        match jv_get_str(b, "type"@) {
            None => Err("Content block missing 'type' field"@),
            Some(t) => if t == "text"@ {
                match jv_get_str(b, "text"@) {
                    Some(text) => Ok(Some(ContentBlockV::Text { text })),
                    None => Err("Text block missing 'text' field"@),
                }
            } else if t == "thinking"@ {
                match jv_get_str(b, "thinking"@) {
                    None => Err("Thinking block missing 'thinking' field"@),
                    Some(thinking) => match jv_get_str(b, "signature"@) {
                        None => Err("Thinking block missing 'signature' field"@),
                        Some(signature) => Ok(
                            Some(ContentBlockV::Thinking { thinking, signature }),
                        ),
                    },
                }
            } else if t == "tool_use"@ {
                match jv_get_str(b, "id"@) {
                    None => Err("ToolUse block missing 'id' field"@),
                    Some(id) => match jv_get_str(b, "name"@) {
                        None => Err("ToolUse block missing 'name' field"@),
                        Some(name) => match jv_get(b, "input"@) {
                            None => Err("ToolUse block missing 'input' field"@),
                            Some(input) => Ok(Some(ContentBlockV::ToolUse { id, name, input })),
                        },
                    },
                }
            } else if t == "tool_result"@ {
                match jv_get_str(b, "tool_use_id"@) {
                    None => Err("ToolResult block missing 'tool_use_id' field"@),
                    Some(tool_use_id) => Ok(
                        Some(
                            ContentBlockV::ToolResult {
                                tool_use_id,
                                content: jv_get(b, "content"@),
                                is_error: jv_get_bool(b, "is_error"@),
                            },
                        ),
                    ),
                }
            } else {
                Ok(None)
            },
        }
    }
}

/// A whole content array, mapped block by block: the first bad block's error
/// wins, and unknown block types are skipped.
pub open spec fn parse_blocks_v(s: Seq<JsonV>) -> Result<Seq<ContentBlockV>, Seq<char>>
    decreases s.len(),
{
    if s.len() == 0 {
        Ok(Seq::empty())
    } else {
        match parse_content_block_v(s[0]) {
            Err(e) => Err(e),
            Ok(opt) => match parse_blocks_v(s.drop_first()) {
                Err(e) => Err(e),
                Ok(rest) => Ok(
                    match opt {
                        Some(b) => seq![b] + rest,
                        None => rest,
                    },
                ),
            },
        }
    }
}

/// A `user` event, mapped to the model.
pub open spec fn parse_user_message_v(j: JsonV) -> Result<Option<MessageV>, Seq<char>> {
    match jv_get(j, "message"@) {
        None => Err("User message missing 'message' field"@),
        Some(message) => {
            let content = match jv_get(message, "content"@) {
                Some(JsonV::Str(s)) => Ok(UserContentV::Text(s)),
                Some(JsonV::Arr(arr)) => match parse_blocks_v(arr) {
                    Ok(blocks) => Ok(UserContentV::Blocks(blocks)),
                    Err(e) => Err(e),
                },
                _ => Err("User message content must be string or array"@),
            };
            match content {
                Err(e) => Err(e),
                Ok(content) => Ok(
                    Some(
                        MessageV::User(
                            UserMessageV {
                                content,
                                uuid: jv_get_str(j, "uuid"@),
                                parent_tool_use_id: jv_get_str(j, "parent_tool_use_id"@),
                                tool_use_result: jv_get(j, "tool_use_result"@),
                            },
                        ),
                    ),
                ),
            }
        },
    }
}

/// An `assistant` event, mapped to the model.
pub open spec fn parse_assistant_message_v(j: JsonV) -> Result<Option<MessageV>, Seq<char>> {
    match jv_get(j, "message"@) {
        None => Err("Assistant message missing 'message' field"@),
        Some(message) => match jv_get(message, "content"@) {
            Some(JsonV::Arr(arr)) => match parse_blocks_v(arr) {
                Err(e) => Err(e),
                Ok(content) => match jv_get_str(message, "model"@) {
                    None => Err("Assistant message missing 'model' field"@),
                    Some(model) => Ok(
                        Some(
                            MessageV::Assistant(
                                AssistantMessageV {
                                    content,
                                    model,
                                    parent_tool_use_id: jv_get_str(j, "parent_tool_use_id"@),
                                    error: match jv_get_str(j, "error"@) {
                                        Some(e) => Some(assistant_error_of(e)),
                                        None => None,
                                    },
                                },
                            ),
                        ),
                    ),
                },
            },
            _ => Err("Assistant message missing 'content' array"@),
        },
    }
}

/// A `system` event, mapped to the model: the whole event is its payload.
pub open spec fn parse_system_message_v(j: JsonV) -> Result<Option<MessageV>, Seq<char>> {
    match jv_get_str(j, "subtype"@) {
        None => Err("System message missing 'subtype' field"@),
        Some(subtype) => Ok(Some(MessageV::System(SystemMessageV { subtype, data: j }))),
    }
}

/// A `result` event, mapped to the model.
pub open spec fn parse_result_message_v(j: JsonV) -> Result<Option<MessageV>, Seq<char>> {
    match jv_get_str(j, "subtype"@) {
        None => Err("Result message missing 'subtype' field"@),
        Some(subtype) => match jv_get_u64(j, "duration_ms"@) {
            None => Err("Result message missing 'duration_ms' field"@),
            Some(duration_ms) => match jv_get_u64(j, "duration_api_ms"@) {
                None => Err("Result message missing 'duration_api_ms' field"@),
                Some(duration_api_ms) => match jv_get_bool(j, "is_error"@) {
                    None => Err("Result message missing 'is_error' field"@),
                    Some(is_error) => match jv_get_u64(j, "num_turns"@) {
                        None => Err("Result message missing 'num_turns' field"@),
                        Some(num_turns) => match jv_get_str(j, "session_id"@) {
                            None => Err("Result message missing 'session_id' field"@),
                            Some(session_id) => Ok(
                                Some(
                                    MessageV::Result(
                                        ResultMessageV {
                                            subtype,
                                            duration_ms: duration_ms as u64,
                                            duration_api_ms: duration_api_ms as u64,
                                            is_error,
                                            num_turns: (num_turns % 0x1_0000_0000) as u32,
                                            session_id,
                                            total_cost_usd: match jv_get(j, "total_cost_usd"@) {
                                                Some(JsonV::Num(n)) => Some(n),
                                                _ => None,
                                            },
                                            usage: jv_get(j, "usage"@),
                                            result: jv_get_str(j, "result"@),
                                            structured_output: jv_get(j, "structured_output"@),
                                        },
                                    ),
                                ),
                            ),
                        },
                    },
                },
            },
        },
    }
}

/// A `stream_event` event, mapped to the model.
pub open spec fn parse_stream_event_v(j: JsonV) -> Result<Option<MessageV>, Seq<char>> {
    match jv_get_str(j, "uuid"@) {
        None => Err("StreamEvent missing 'uuid' field"@),
        Some(uuid) => match jv_get_str(j, "session_id"@) {
            None => Err("StreamEvent missing 'session_id' field"@),
            Some(session_id) => Ok(
                Some(
                    MessageV::StreamEvent(
                        StreamEventV {
                            uuid,
                            session_id,
                            event: match jv_get(j, "event"@) {
                                Some(e) => e,
                                None => JsonV::Null,
                            },
                            parent_tool_use_id: jv_get_str(j, "parent_tool_use_id"@),
                        },
                    ),
                ),
            ),
        },
    }
}

/// One wire event of this backend, mapped to the model: the codec's whole
/// contract in one function.
pub open spec fn parse_message_v(j: JsonV) -> Result<Option<MessageV>, Seq<char>> {
    if !(j is Obj) {
        Err("Invalid message data type (expected object, got "@ + json_kind_text(j) + ")"@)
    } else {
        match jv_get_str(j, "type"@) {
            None => Err("Message missing 'type' field"@),
            Some(t) => if t == "user"@ {
                parse_user_message_v(j)
            } else if t == "assistant"@ {
                parse_assistant_message_v(j)
            } else if t == "system"@ {
                parse_system_message_v(j)
            } else if t == "result"@ {
                parse_result_message_v(j)
            } else if t == "stream_event"@ {
                parse_stream_event_v(j)
            } else {
                Ok(None)
            },
        }
    }
}

/// The JSON kind of a value, for parse error messages.
fn json_kind(v: &Json) -> (r: &'static str)
    ensures
        r@ == json_kind_text(v.jv()),
{
    match v {
        Json::Null => "null",
        Json::Bool(_) => "bool",
        Json::Num(_) => "number",
        Json::Str(_) => "string",
        Json::Arr(_) => "array",
        Json::Obj(_) => "object",
    }
}

/// Outcome view of a block parse.
pub open spec fn block_result_v(r: Result<Option<ContentBlock>, Error>) -> Result<
    Option<ContentBlockV>,
    Seq<char>,
> {
    match r {
        Ok(Some(b)) => Ok(Some(b.dv())),
        Ok(None) => Ok(None),
        Err(Error::MessageParse(s)) => Err(s@),
        Err(_) => Err(Seq::empty()),
    }
}

fn parse_err<T>(text: &str) -> (r: Result<T, Error>)
    ensures
        r matches Err(Error::MessageParse(s)) && s@ == text@,
{
    Err(Error::MessageParse(String::from_str(text)))
}

/// Parse one content block.
fn parse_content_block(block: &Json) -> (r: Result<Option<ContentBlock>, Error>)
    ensures
        r is Err ==> r->Err_0 is MessageParse,
        block_result_v(r) == parse_content_block_v(block.jv()),
{
    if let Json::Obj(_) = block {
    } else {
        return parse_err("Content block must be object");
    }
    let block_type = match block.get_str("type") {
        Some(t) => t.clone(),
        None => {
            return parse_err("Content block missing 'type' field");
        },
    };
    if crate::json::str_eq(block_type.as_str(), "text") {
        match block.get_str("text") {
            Some(text) => Ok(Some(ContentBlock::Text(TextBlock { text: text.clone() }))),
            None => parse_err("Text block missing 'text' field"),
        }
    } else if crate::json::str_eq(block_type.as_str(), "thinking") {
        let thinking = match block.get_str("thinking") {
            Some(t) => t.clone(),
            None => {
                return parse_err("Thinking block missing 'thinking' field");
            },
        };
        match block.get_str("signature") {
            Some(signature) => Ok(
                Some(
                    ContentBlock::Thinking(
                        ThinkingBlock { thinking, signature: signature.clone() },
                    ),
                ),
            ),
            None => parse_err("Thinking block missing 'signature' field"),
        }
    } else if crate::json::str_eq(block_type.as_str(), "tool_use") {
        let id = match block.get_str("id") {
            Some(v) => v.clone(),
            None => {
                return parse_err("ToolUse block missing 'id' field");
            },
        };
        let name = match block.get_str("name") {
            Some(v) => v.clone(),
            None => {
                return parse_err("ToolUse block missing 'name' field");
            },
        };
        match block.get("input") {
            Some(input) => Ok(
                Some(ContentBlock::ToolUse(ToolUseBlock { id, name, input: input.clone() })),
            ),
            None => parse_err("ToolUse block missing 'input' field"),
        }
    } else if crate::json::str_eq(block_type.as_str(), "tool_result") {
        let tool_use_id = match block.get_str("tool_use_id") {
            Some(v) => v.clone(),
            None => {
                return parse_err("ToolResult block missing 'tool_use_id' field");
            },
        };
        let content = match block.get("content") {
            Some(c) => Some(c.clone()),
            None => None,
        };
        let is_error = block.get_bool("is_error");
        Ok(
            Some(
                ContentBlock::ToolResult(ToolResultBlock { tool_use_id, content, is_error }),
            ),
        )
    } else {
        Ok(None)
    }
}

/// Dropping one parsed element advances the block-array spec by one.
proof fn lemma_parse_blocks_step(s: Seq<JsonV>, i: int)
    requires
        0 <= i < s.len(),
    ensures
        parse_blocks_v(s.skip(i)) == (match parse_content_block_v(s[i]) {
            Err(e) => Err::<Seq<ContentBlockV>, Seq<char>>(e),
            Ok(opt) => match parse_blocks_v(s.skip(i + 1)) {
                Err(e) => Err(e),
                Ok(rest) => Ok(
                    match opt {
                        Some(b) => seq![b] + rest,
                        None => rest,
                    },
                ),
            },
        }),
{
    assert(s.skip(i)[0] == s[i]);
    assert(s.skip(i).drop_first() =~= s.skip(i + 1));
}

/// Parse a content array, skipping unknown block types.
fn parse_blocks(arr: &Vec<Json>) -> (r: Result<Vec<ContentBlock>, Error>)
    ensures
        r is Err ==> r->Err_0 is MessageParse,
        match r {
            Ok(blocks) => parse_blocks_v(arr@.map_values(|j: Json| j.jv())) == Ok::<
                _,
                Seq<char>,
            >(view_blocks(blocks@)),
            Err(e) => e matches Error::MessageParse(t) && parse_blocks_v(
                arr@.map_values(|j: Json| j.jv()),
            ) == Err::<Seq<ContentBlockV>, _>(t@),
        },
{
    let ghost sv = arr@.map_values(|j: Json| j.jv());
    let mut out: Vec<ContentBlock> = Vec::new();
    proof {
        assert(sv.skip(0) =~= sv);
        assert(view_blocks(out@) =~= Seq::<ContentBlockV>::empty());
        if parse_blocks_v(sv) is Ok {
            assert(view_blocks(out@) + parse_blocks_v(sv)->Ok_0 =~= parse_blocks_v(sv)->Ok_0);
        }
    }
    let n = arr.len();
    let mut i: usize = 0;
    #[verifier::loop_isolation(false)]
    while i < n
        invariant
            i <= n,
            parse_blocks_v(sv) == (match parse_blocks_v(sv.skip(i as int)) {
                Err(e) => Err::<Seq<ContentBlockV>, Seq<char>>(e),
                Ok(rest) => Ok(view_blocks(out@) + rest),
            }),
        decreases n - i,
    {
        proof {
            lemma_parse_blocks_step(sv, i as int);
        }
        match parse_content_block(&arr[i]) {
            Ok(Some(b)) => {
                let ghost old_out = out@;
                out.push(b);
                proof {
                    assert(view_blocks(out@) =~= view_blocks(old_out) + seq![b.dv()]);
                    if parse_blocks_v(sv.skip(i + 1)) is Ok {
                        let rest = parse_blocks_v(sv.skip(i + 1))->Ok_0;
                        assert(view_blocks(old_out) + (seq![b.dv()] + rest) =~= view_blocks(out@)
                            + rest);
                    }
                }
            },
            Ok(None) => {},
            Err(e) => {
                return Err(e);
            },
        }
        i += 1;
    }
    proof {
        assert(sv.skip(n as int) =~= Seq::<JsonV>::empty());
        assert(parse_blocks_v(sv.skip(n as int)) == Ok::<_, Seq<char>>(
            Seq::<ContentBlockV>::empty(),
        ));
        assert(view_blocks(out@) + Seq::<ContentBlockV>::empty() =~= view_blocks(out@));
    }
    Ok(out)
}

fn parse_user_message(data: &Json) -> (r: Result<Option<Message>, Error>)
    ensures
        r is Err ==> r->Err_0 is MessageParse,
        codec_result_v(r) == parse_user_message_v(data.jv()),
{
    let message = match data.get("message") {
        Some(m) => m,
        None => {
            return parse_err("User message missing 'message' field");
        },
    };
    let content = match message.get("content") {
        Some(c) => match c {
            Json::Str(s) => UserContent::Text(s.clone()),
            Json::Arr(arr) => {
                proof {
                    crate::json::lemma_arr_view(*arr);
                }
                match parse_blocks(arr) {
                    Ok(blocks) => UserContent::Blocks(blocks),
                    Err(e) => {
                        return Err(e);
                    },
                }
            },
            _ => {
                return parse_err("User message content must be string or array");
            },
        },
        None => {
            return parse_err("User message content must be string or array");
        },
    };
    let uuid = match data.get_str("uuid") {
        Some(s) => Some(s.clone()),
        None => None,
    };
    let parent_tool_use_id = match data.get_str("parent_tool_use_id") {
        Some(s) => Some(s.clone()),
        None => None,
    };
    let tool_use_result = match data.get("tool_use_result") {
        Some(v) => Some(v.clone()),
        None => None,
    };
    Ok(
        Some(
            Message::User(UserMessage { content, uuid, parent_tool_use_id, tool_use_result }),
        ),
    )
}

fn parse_assistant_message(data: &Json) -> (r: Result<Option<Message>, Error>)
    ensures
        r is Err ==> r->Err_0 is MessageParse,
        codec_result_v(r) == parse_assistant_message_v(data.jv()),
{
    let message = match data.get("message") {
        Some(m) => m,
        None => {
            return parse_err("Assistant message missing 'message' field");
        },
    };
    let content_arr = match message.get("content") {
        Some(Json::Arr(arr)) => arr,
        _ => {
            return parse_err("Assistant message missing 'content' array");
        },
    };
    proof {
        crate::json::lemma_arr_view(*content_arr);
    }
    let content = match parse_blocks(content_arr) {
        Ok(blocks) => blocks,
        Err(e) => {
            return Err(e);
        },
    };
    let model = match message.get_str("model") {
        Some(m) => m.clone(),
        None => {
            return parse_err("Assistant message missing 'model' field");
        },
    };
    let parent_tool_use_id = match data.get_str("parent_tool_use_id") {
        Some(s) => Some(s.clone()),
        None => None,
    };
    let error = match data.get_str("error") {
        Some(s) => Some(AssistantMessageError::from_label(s.as_str())),
        None => None,
    };
    Ok(
        Some(
            Message::Assistant(
                AssistantMessage { content, model, parent_tool_use_id, error },
            ),
        ),
    )
}

fn parse_system_message(data: &Json) -> (r: Result<Option<Message>, Error>)
    ensures
        r is Err ==> r->Err_0 is MessageParse,
        codec_result_v(r) == parse_system_message_v(data.jv()),
{
    let subtype = match data.get_str("subtype") {
        Some(s) => s.clone(),
        None => {
            return parse_err("System message missing 'subtype' field");
        },
    };
    Ok(Some(Message::System(SystemMessage { subtype, data: data.clone() })))
}

fn parse_result_message(data: &Json) -> (r: Result<Option<Message>, Error>)
    ensures
        r is Err ==> r->Err_0 is MessageParse,
        codec_result_v(r) == parse_result_message_v(data.jv()),
{
    let subtype = match data.get_str("subtype") {
        Some(s) => s.clone(),
        None => {
            return parse_err("Result message missing 'subtype' field");
        },
    };
    let duration_ms = match data.get_u64("duration_ms") {
        Some(v) => v,
        None => {
            return parse_err("Result message missing 'duration_ms' field");
        },
    };
    let duration_api_ms = match data.get_u64("duration_api_ms") {
        Some(v) => v,
        None => {
            return parse_err("Result message missing 'duration_api_ms' field");
        },
    };
    let is_error = match data.get_bool("is_error") {
        Some(v) => v,
        None => {
            return parse_err("Result message missing 'is_error' field");
        },
    };
    let num_turns_raw = match data.get_u64("num_turns") {
        Some(v) => v,
        None => {
            return parse_err("Result message missing 'num_turns' field");
        },
    };
    let num_turns: u32 = (num_turns_raw % 0x1_0000_0000u64) as u32;
    let session_id = match data.get_str("session_id") {
        Some(s) => s.clone(),
        None => {
            return parse_err("Result message missing 'session_id' field");
        },
    };
    let total_cost_usd = match data.get("total_cost_usd") {
        Some(Json::Num(n)) => Some(n.clone()),
        _ => None,
    };
    let usage = match data.get("usage") {
        Some(v) => Some(v.clone()),
        None => None,
    };
    let result = match data.get_str("result") {
        Some(s) => Some(s.clone()),
        None => None,
    };
    let structured_output = match data.get("structured_output") {
        Some(v) => Some(v.clone()),
        None => None,
    };
    Ok(
        Some(
            Message::Result(
                ResultMessage {
                    subtype,
                    duration_ms,
                    duration_api_ms,
                    is_error,
                    num_turns,
                    session_id,
                    total_cost_usd,
                    usage,
                    result,
                    structured_output,
                },
            ),
        ),
    )
}

fn parse_stream_event(data: &Json) -> (r: Result<Option<Message>, Error>)
    ensures
        r is Err ==> r->Err_0 is MessageParse,
        codec_result_v(r) == parse_stream_event_v(data.jv()),
{
    let uuid = match data.get_str("uuid") {
        Some(s) => s.clone(),
        None => {
            return parse_err("StreamEvent missing 'uuid' field");
        },
    };
    let session_id = match data.get_str("session_id") {
        Some(s) => s.clone(),
        None => {
            return parse_err("StreamEvent missing 'session_id' field");
        },
    };
    let event = match data.get("event") {
        Some(e) => e.clone(),
        None => Json::Null,
    };
    let parent_tool_use_id = match data.get_str("parent_tool_use_id") {
        Some(s) => Some(s.clone()),
        None => None,
    };
    Ok(
        Some(
            Message::StreamEvent(
                StreamEvent { uuid, session_id, event, parent_tool_use_id },
            ),
        ),
    )
}

/// Parse one JSON event from this backend into a typed [`Message`].
///
/// Returns `Ok(None)` for unrecognised event types (forward compatibility),
/// and a [`Error::MessageParse`] naming the field when a recognised type
/// misses a required field.
pub fn parse_message(data: &Json) -> (r: Result<Option<Message>, Error>)
    ensures
        r is Err ==> r->Err_0 is MessageParse,
        codec_result_v(r) == parse_message_v(data.jv()),
{
    if let Json::Obj(_) = data {
    } else {
        let head = concat_str("Invalid message data type (expected object, got ", json_kind(data));
        let text = concat_str(head.as_str(), ")");
        return Err(Error::MessageParse(text));
    }
    let message_type = match data.get_str("type") {
        Some(t) => t.clone(),
        None => {
            return parse_err("Message missing 'type' field");
        },
    };
    if crate::json::str_eq(message_type.as_str(), "user") {
        parse_user_message(data)
    } else if crate::json::str_eq(message_type.as_str(), "assistant") {
        parse_assistant_message(data)
    } else if crate::json::str_eq(message_type.as_str(), "system") {
        parse_system_message(data)
    } else if crate::json::str_eq(message_type.as_str(), "result") {
        parse_result_message(data)
    } else if crate::json::str_eq(message_type.as_str(), "stream_event") {
        parse_stream_event(data)
    } else {
        Ok(None)
    }
}

/// An event whose `type` tag is none of the recognised ones is skipped, not
/// rejected: the codec stays forward compatible.
pub proof fn lemma_unknown_type_is_skipped(j: JsonV, t: Seq<char>)
    requires
        j is Obj,
        jv_get_str(j, "type"@) == Some(t),
        t != "user"@,
        t != "assistant"@,
        t != "system"@,
        t != "result"@,
        t != "stream_event"@,
    ensures
        parse_message_v(j) == Ok::<Option<MessageV>, Seq<char>>(None),
{
}


/// The other recognised event kinds likewise reject a missing required
/// field with an error naming it: a `user` or `assistant` event without its
/// `message`, an `assistant` body without its `content` array or `model`, a
/// `system` event without its `subtype`, and a `stream_event` without its
/// `uuid` or `session_id`.
pub proof fn lemma_missing_required_field_named(j: JsonV)
    requires
        j is Obj,
    ensures
        jv_get_str(j, "type"@) == Some("user"@) && jv_get(j, "message"@) is None
            ==> parse_message_v(j) == Err::<Option<MessageV>, _>(
            "User message missing 'message' field"@,
        ),
        jv_get_str(j, "type"@) == Some("assistant"@) && jv_get(j, "message"@) is None
            ==> parse_message_v(j) == Err::<Option<MessageV>, _>(
            "Assistant message missing 'message' field"@,
        ),
        jv_get_str(j, "type"@) == Some("assistant"@) && (jv_get(j, "message"@) matches Some(m)
            && !(jv_get(m, "content"@) matches Some(JsonV::Arr(_)))) ==> parse_message_v(j)
            == Err::<Option<MessageV>, _>("Assistant message missing 'content' array"@),
        jv_get_str(j, "type"@) == Some("system"@) && jv_get_str(j, "subtype"@) is None
            ==> parse_message_v(j) == Err::<Option<MessageV>, _>(
            "System message missing 'subtype' field"@,
        ),
        jv_get_str(j, "type"@) == Some("stream_event"@) && jv_get_str(j, "uuid"@) is None
            ==> parse_message_v(j) == Err::<Option<MessageV>, _>(
            "StreamEvent missing 'uuid' field"@,
        ),
        jv_get_str(j, "type"@) == Some("stream_event"@) && jv_get_str(j, "uuid"@) is Some
            && jv_get_str(j, "session_id"@) is None ==> parse_message_v(j) == Err::<
            Option<MessageV>,
            _,
        >("StreamEvent missing 'session_id' field"@),
        jv_get_str(j, "type"@) is None ==> parse_message_v(j) == Err::<Option<MessageV>, _>(
            "Message missing 'type' field"@,
        ),
    {
    reveal_strlit("user");
    reveal_strlit("assistant");
    reveal_strlit("system");
    reveal_strlit("result");
    reveal_strlit("stream_event");
    assert("user"@.len() != "assistant"@.len());
    assert("system"@.len() != "assistant"@.len());
    assert("system"@[0] != "user"@[0]);
    assert("system"@[0] != "result"@[0]);
    assert("stream_event"@.len() != "user"@.len());
    assert("stream_event"@.len() != "assistant"@.len());
    assert("stream_event"@.len() != "system"@.len());
    assert("stream_event"@.len() != "result"@.len());
}

/// A recognised `result` event missing a required field is rejected with an
/// error naming exactly that field, in documented field order.
pub proof fn lemma_result_missing_field_named(j: JsonV)
    requires
        j is Obj,
        jv_get_str(j, "type"@) == Some("result"@),
    ensures
        jv_get_str(j, "subtype"@) is None ==> parse_message_v(j) == Err::<Option<MessageV>, _>(
            "Result message missing 'subtype' field"@,
        ),
        jv_get_str(j, "subtype"@) is Some && jv_get_u64(j, "duration_ms"@) is None
            ==> parse_message_v(j) == Err::<Option<MessageV>, _>(
            "Result message missing 'duration_ms' field"@,
        ),
        jv_get_str(j, "subtype"@) is Some && jv_get_u64(j, "duration_ms"@) is Some && jv_get_u64(
            j,
            "duration_api_ms"@,
        ) is None ==> parse_message_v(j) == Err::<Option<MessageV>, _>(
            "Result message missing 'duration_api_ms' field"@,
        ),
        jv_get_str(j, "subtype"@) is Some && jv_get_u64(j, "duration_ms"@) is Some && jv_get_u64(
            j,
            "duration_api_ms"@,
        ) is Some && jv_get_bool(j, "is_error"@) is None ==> parse_message_v(j) == Err::<
            Option<MessageV>,
            _,
        >("Result message missing 'is_error' field"@),
        jv_get_str(j, "subtype"@) is Some && jv_get_u64(j, "duration_ms"@) is Some && jv_get_u64(
            j,
            "duration_api_ms"@,
        ) is Some && jv_get_bool(j, "is_error"@) is Some && jv_get_u64(j, "num_turns"@) is None
            ==> parse_message_v(j) == Err::<Option<MessageV>, _>(
            "Result message missing 'num_turns' field"@,
        ),
        jv_get_str(j, "subtype"@) is Some && jv_get_u64(j, "duration_ms"@) is Some && jv_get_u64(
            j,
            "duration_api_ms"@,
        ) is Some && jv_get_bool(j, "is_error"@) is Some && jv_get_u64(j, "num_turns"@) is Some
            && jv_get_str(j, "session_id"@) is None ==> parse_message_v(j) == Err::<
            Option<MessageV>,
            _,
        >("Result message missing 'session_id' field"@),
{
    reveal_strlit("user");
    reveal_strlit("assistant");
    reveal_strlit("system");
    reveal_strlit("result");
    reveal_strlit("stream_event");
    assert("result"@.len() != "user"@.len());
    assert("result"@.len() != "assistant"@.len());
    assert("result"@[0] != "system"@[0]);
    assert("result"@.len() != "stream_event"@.len());
    assert(parse_message_v(j) == parse_result_message_v(j));
}

} // verus!
