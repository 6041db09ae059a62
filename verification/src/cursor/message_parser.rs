//! Codec for the spawn-per-turn backend's `stream-json` output.
//!
//! Every field of this wire format is optional with a defined default, so
//! this codec never rejects an event: unknown types are skipped and
//! recognised ones always map to a message (or to nothing when empty).

use vstd::prelude::*;

use crate::codex::message_parser::str_or_empty;
use crate::error::Error;
use crate::json::{jv_get, jv_get_bool, jv_get_or, jv_get_str, str_eq, Json, JsonV};
use crate::jsontext::{json_to_string, jv_text};
use crate::types::{
    codec_result_v, view_blocks, AssistantMessage, AssistantMessageV, ContentBlock, ContentBlockV,
    Message, MessageV, ResultMessage, ResultMessageV, SystemMessage, SystemMessageV, TextBlock,
    ThinkingBlock, ToolResultBlock, ToolUseBlock, UserContent, UserContentV, UserMessage,
    UserMessageV,
};

verus! {

/// The string behind the first of two keys, or empty.
pub open spec fn str_or_empty2(v: JsonV, k: Seq<char>, alt: Seq<char>) -> Seq<char> {
    match jv_get_or(v, k, alt) {
        Some(JsonV::Str(s)) => s,
        _ => Seq::empty(),
    }
}

/// The concatenated texts of the `text`-typed blocks of a content array.
pub open spec fn concat_text_blocks(arr: Seq<JsonV>) -> Seq<char>
    decreases arr.len(),
{
    if arr.len() == 0 {
        Seq::empty()
    } else {
        (match jv_get_str(arr[0], "type"@) {
            Some(t) => if t == "text"@ {
                match jv_get_str(arr[0], "text"@) {
                    Some(s) => s,
                    None => Seq::empty(),
                }
            } else {
                Seq::empty()
            },
            None => Seq::empty(),
        }) + concat_text_blocks(arr.drop_first())
    }
}

/// A `system` event: the whole event object is carried as payload.
pub open spec fn parse_system_event_v(j: JsonV) -> Result<Option<MessageV>, Seq<char>> {
    let subtype = match jv_get_str(j, "subtype"@) {
        Some(s) => s,
        None => "init"@,
    };
    let data = if j is Obj {
        j
    } else {
        JsonV::Obj(Seq::empty())
    };
    Ok(Some(MessageV::System(SystemMessageV { subtype, data })))
}

/// An `assistant` event: its text content as one block.
pub open spec fn parse_assistant_event_v(j: JsonV) -> Result<Option<MessageV>, Seq<char>> {
    let message = match jv_get(j, "message"@) {
        Some(m) => m,
        None => j,
    };
    let text = match jv_get(message, "content"@) {
        Some(JsonV::Str(s)) => s,
        Some(JsonV::Arr(arr)) => concat_text_blocks(arr),
        _ => str_or_empty(j, "text"@),
    };
    if text.len() == 0 {
        Ok(None)
    } else {
        let model = match jv_get(message, "model"@) {
            Some(m) => match m {
                JsonV::Str(s) => s,
                _ => Seq::empty(),
            },
            None => str_or_empty(j, "model"@),
        };
        Ok(
            Some(
                MessageV::Assistant(
                    AssistantMessageV {
                        content: seq![ContentBlockV::Text { text }],
                        model,
                        parent_tool_use_id: jv_get_str(j, "parent_tool_use_id"@),
                        error: None,
                    },
                ),
            ),
        )
    }
}

/// A `thinking` event.
pub open spec fn parse_thinking_event_v(j: JsonV) -> Result<Option<MessageV>, Seq<char>> {
    let thinking = str_or_empty2(j, "thinking"@, "text"@);
    if thinking.len() == 0 {
        Ok(None)
    } else {
        Ok(
            Some(
                MessageV::Assistant(
                    AssistantMessageV {
                        content: seq![
                            ContentBlockV::Thinking {
                                thinking,
                                signature: str_or_empty(j, "signature"@),
                            },
                        ],
                        model: Seq::empty(),
                        parent_tool_use_id: None,
                        error: None,
                    },
                ),
            ),
        )
    }
}

/// A `tool_call` event, split by subtype into a tool use or a tool result.
pub open spec fn parse_tool_call_event_v(j: JsonV) -> Result<Option<MessageV>, Seq<char>> {
    let subtype = str_or_empty(j, "subtype"@);
    if subtype == "started"@ {
        Ok(
            Some(
                MessageV::Assistant(
                    AssistantMessageV {
                        content: seq![
                            ContentBlockV::ToolUse {
                                id: str_or_empty2(j, "id"@, "tool_use_id"@),
                                name: str_or_empty2(j, "name"@, "tool_name"@),
                                input: match jv_get(j, "input"@) {
                                    Some(v) => v,
                                    None => JsonV::Obj(Seq::empty()),
                                },
                            },
                        ],
                        model: Seq::empty(),
                        parent_tool_use_id: jv_get_str(j, "parent_tool_use_id"@),
                        error: None,
                    },
                ),
            ),
        )
    } else if subtype == "completed"@ {
        Ok(
            Some(
                MessageV::Assistant(
                    AssistantMessageV {
                        content: seq![
                            ContentBlockV::ToolResult {
                                tool_use_id: str_or_empty2(j, "tool_use_id"@, "id"@),
                                content: jv_get_or(j, "output"@, "content"@),
                                is_error: jv_get_bool(j, "is_error"@),
                            },
                        ],
                        model: Seq::empty(),
                        parent_tool_use_id: None,
                        error: None,
                    },
                ),
            ),
        )
    } else {
        Ok(None)
    }
}

/// A `result` event: every field defaulted when absent.
pub open spec fn parse_result_event_v(j: JsonV) -> Result<Option<MessageV>, Seq<char>> {
    Ok(
        Some(
            MessageV::Result(
                ResultMessageV {
                    subtype: match jv_get_str(j, "subtype"@) {
                        Some(s) => s,
                        None => "success"@,
                    },
                    duration_ms: match crate::json::jv_get_u64(j, "duration_ms"@) {
                        Some(d) => d as u64,
                        None => 0,
                    },
                    duration_api_ms: match crate::json::jv_get_u64(j, "duration_api_ms"@) {
                        Some(d) => d as u64,
                        None => 0,
                    },
                    is_error: match jv_get_bool(j, "is_error"@) {
                        Some(b) => b,
                        None => false,
                    },
                    num_turns: match crate::json::jv_get_u64(j, "num_turns"@) {
                        Some(n) => (n % 0x1_0000_0000) as u32,
                        None => 1,
                    },
                    session_id: str_or_empty2(j, "session_id"@, "chatId"@),
                    total_cost_usd: match jv_get(j, "total_cost_usd"@) {
                        Some(JsonV::Num(n)) => Some(n),
                        _ => None,
                    },
                    usage: jv_get(j, "usage"@),
                    result: jv_get_str(j, "result"@),
                    structured_output: jv_get(j, "structured_output"@),
                },
            ),
        ),
    )
}

/// A `user` event; array content is carried as its JSON text.
pub open spec fn parse_user_event_v(j: JsonV) -> Result<Option<MessageV>, Seq<char>> {
    let message = match jv_get(j, "message"@) {
        Some(m) => m,
        None => j,
    };
    let content = match jv_get(message, "content"@) {
        Some(JsonV::Str(s)) => UserContentV::Text(s),
        Some(JsonV::Arr(arr)) => UserContentV::Text(jv_text(JsonV::Arr(arr))),
        _ => UserContentV::Text(Seq::empty()),
    };
    Ok(
        Some(
            MessageV::User(
                UserMessageV {
                    content,
                    uuid: jv_get_str(j, "uuid"@),
                    parent_tool_use_id: jv_get_str(j, "parent_tool_use_id"@),
                    tool_use_result: jv_get(j, "tool_use_result"@),
                },
            ),
        ),
    )
}

/// One wire event of this backend, mapped to the model.
pub open spec fn parse_cursor_event_v(j: JsonV) -> Result<Option<MessageV>, Seq<char>> {
    let t = str_or_empty(j, "type"@);
    if t == "system"@ {
        parse_system_event_v(j)
    } else if t == "assistant"@ {
        parse_assistant_event_v(j)
    } else if t == "thinking"@ {
        parse_thinking_event_v(j)
    } else if t == "tool_call"@ {
        parse_tool_call_event_v(j)
    } else if t == "result"@ {
        parse_result_event_v(j)
    } else if t == "user"@ {
        parse_user_event_v(j)
    } else {
        Ok(None)
    }
}

/// The string behind the first of two keys, cloned, or fresh-empty.
fn get_str_or_empty2(j: &Json, key: &str, alt: &str) -> (r: String)
    ensures
        r@ == str_or_empty2(j.jv(), key@, alt@),
{
    match j.get_or(key, alt) {
        Some(Json::Str(s)) => s.clone(),
        _ => String::new(),
    }
}

/// Concatenating one more block's text extends the concatenation.
proof fn lemma_concat_text_blocks_step(arr: Seq<JsonV>, i: int)
    requires
        0 <= i < arr.len(),
    ensures
        concat_text_blocks(arr.take(i + 1)) == concat_text_blocks(arr.take(i)) + (
        match jv_get_str(arr[i], "type"@) {
            Some(t) => if t == "text"@ {
                match jv_get_str(arr[i], "text"@) {
                    Some(s) => s,
                    None => Seq::<char>::empty(),
                }
            } else {
                Seq::<char>::empty()
            },
            None => Seq::<char>::empty(),
        }),
    decreases i,
{
    if i == 0 {
        assert(arr.take(1)[0] == arr[0]);
        assert(arr.take(1).drop_first() =~= Seq::<JsonV>::empty());
        assert(concat_text_blocks(Seq::<JsonV>::empty()) == Seq::<char>::empty());
        assert(arr.take(0) =~= Seq::<JsonV>::empty());
        assert(concat_text_blocks(arr.take(1)) =~= concat_text_blocks(arr.take(0)) + (
        match jv_get_str(arr[0], "type"@) {
            Some(t) => if t == "text"@ {
                match jv_get_str(arr[0], "text"@) {
                    Some(s) => s,
                    None => Seq::<char>::empty(),
                }
            } else {
                Seq::<char>::empty()
            },
            None => Seq::<char>::empty(),
        }));
    } else {
        lemma_concat_text_blocks_step(arr.drop_first(), i - 1);
        assert(arr.take(i + 1).drop_first() =~= arr.drop_first().take(i));
        assert(arr.take(i).drop_first() =~= arr.drop_first().take(i - 1));
        assert(arr.take(i + 1)[0] == arr[0]);
        assert(arr.take(i)[0] == arr[0]);
        assert(arr.drop_first()[i - 1] == arr[i]);
        assert(concat_text_blocks(arr.take(i + 1)) =~= concat_text_blocks(arr.take(i)) + (
        match jv_get_str(arr[i], "type"@) {
            Some(t) => if t == "text"@ {
                match jv_get_str(arr[i], "text"@) {
                    Some(s) => s,
                    None => Seq::<char>::empty(),
                }
            } else {
                Seq::<char>::empty()
            },
            None => Seq::<char>::empty(),
        }));
    }
}

/// Concatenate the texts of the `text`-typed blocks of a content array.
fn concat_text_block_texts(arr: &Vec<Json>) -> (r: String)
    ensures
        r@ == concat_text_blocks(arr@.map_values(|j: Json| j.jv())),
{
    let ghost sv = arr@.map_values(|j: Json| j.jv());
    let mut out = String::new();
    let n = arr.len();
    let mut i: usize = 0;
    #[verifier::loop_isolation(false)]
    while i < n
        invariant
            i <= n,
            out@ == concat_text_blocks(sv.take(i as int)),
        decreases n - i,
    {
        match arr[i].get_str("type") {
            Some(t) => {
                if str_eq(t.as_str(), "text") {
                    match arr[i].get_str("text") {
                        Some(s) => {
                            out.append(s.as_str());
                        },
                        None => {},
                    }
                }
            },
            None => {},
        }
        proof {
            lemma_concat_text_blocks_step(sv, i as int);
        }
        i += 1;
    }
    proof {
        assert(sv.take(n as int) =~= sv);
    }
    out
}

fn parse_system_event(data: &Json) -> (r: Result<Option<Message>, Error>)
    ensures
        r is Ok,
        codec_result_v(r) == parse_system_event_v(data.jv()),
{
    let subtype = match data.get_str("subtype") {
        Some(s) => s.clone(),
        None => String::from_str("init"),
    };
    let payload = match data {
        Json::Obj(_) => data.clone(),
        _ => Json::Obj(Vec::new()),
    };
    proof {
        if !(data.jv() is Obj) {
            assert(payload.jv()->Obj_0 =~= Seq::<(Seq<char>, JsonV)>::empty());
            assert(payload.jv() =~= JsonV::Obj(Seq::empty()));
        }
    }
    Ok(Some(Message::System(SystemMessage { subtype, data: payload })))
}

fn parse_assistant_event(data: &Json) -> (r: Result<Option<Message>, Error>)
    ensures
        r is Ok,
        codec_result_v(r) == parse_assistant_event_v(data.jv()),
{
    let message = match data.get("message") {
        Some(m) => m,
        None => data,
    };
    let text: String = match message.get("content") {
        Some(Json::Str(s)) => s.clone(),
        Some(Json::Arr(arr)) => {
            proof {
                crate::json::lemma_arr_view(*arr);
            }
            concat_text_block_texts(arr)
        },
        _ => {
            match data.get_str("text") {
                Some(s) => s.clone(),
                None => String::new(),
            }
        },
    };
    if text.unicode_len() == 0 {
        proof {
            assert(text@ =~= Seq::<char>::empty());
        }
        return Ok(None);
    }
    let model: String = match message.get("model") {
        Some(m) => match m {
            Json::Str(s) => s.clone(),
            _ => String::new(),
        },
        None => {
            match data.get_str("model") {
                Some(s) => s.clone(),
                None => String::new(),
            }
        },
    };
    let parent_tool_use_id = match data.get_str("parent_tool_use_id") {
        Some(s) => Some(s.clone()),
        None => None,
    };
    let mut blocks: Vec<ContentBlock> = Vec::new();
    blocks.push(ContentBlock::Text(TextBlock { text }));
    let ghost bv = blocks@;
    let msg = Message::Assistant(
        AssistantMessage { content: blocks, model, parent_tool_use_id, error: None },
    );
    proof {
        assert(view_blocks(bv) =~= parse_assistant_event_v(data.jv())
            ->Ok_0->0->Assistant_0.content);
    }
    Ok(Some(msg))
}

fn parse_thinking_event(data: &Json) -> (r: Result<Option<Message>, Error>)
    ensures
        r is Ok,
        codec_result_v(r) == parse_thinking_event_v(data.jv()),
{
    let thinking = get_str_or_empty2(data, "thinking", "text");
    if thinking.unicode_len() == 0 {
        proof {
            assert(thinking@ =~= Seq::<char>::empty());
        }
        return Ok(None);
    }
    let signature = match data.get_str("signature") {
        Some(s) => s.clone(),
        None => String::new(),
    };
    let mut blocks: Vec<ContentBlock> = Vec::new();
    blocks.push(ContentBlock::Thinking(ThinkingBlock { thinking, signature }));
    let ghost bv = blocks@;
    let msg = Message::Assistant(
        AssistantMessage {
            content: blocks,
            model: String::new(),
            parent_tool_use_id: None,
            error: None,
        },
    );
    proof {
        assert(view_blocks(bv) =~= parse_thinking_event_v(data.jv())
            ->Ok_0->0->Assistant_0.content);
    }
    Ok(Some(msg))
}

fn parse_tool_call_event(data: &Json) -> (r: Result<Option<Message>, Error>)
    ensures
        r is Ok,
        codec_result_v(r) == parse_tool_call_event_v(data.jv()),
{
    let subtype = match data.get_str("subtype") {
        Some(s) => s.clone(),
        None => String::new(),
    };
    if str_eq(subtype.as_str(), "started") {
        let id = get_str_or_empty2(data, "id", "tool_use_id");
        let name = get_str_or_empty2(data, "name", "tool_name");
        let input = match data.get("input") {
            Some(v) => v.clone(),
            None => Json::Obj(Vec::new()),
        };
        proof {
            if jv_get(data.jv(), "input"@) is None {
                assert(input.jv()->Obj_0 =~= Seq::<(Seq<char>, JsonV)>::empty());
                assert(input.jv() =~= JsonV::Obj(Seq::empty()));
            }
        }
        let parent_tool_use_id = match data.get_str("parent_tool_use_id") {
            Some(s) => Some(s.clone()),
            None => None,
        };
        let mut blocks: Vec<ContentBlock> = Vec::new();
        blocks.push(ContentBlock::ToolUse(ToolUseBlock { id, name, input }));
        let ghost bv = blocks@;
        let msg = Message::Assistant(
            AssistantMessage {
                content: blocks,
                model: String::new(),
                parent_tool_use_id,
                error: None,
            },
        );
        proof {
            assert(view_blocks(bv) =~= parse_tool_call_event_v(data.jv())
                ->Ok_0->0->Assistant_0.content);
        }
        Ok(Some(msg))
    } else if str_eq(subtype.as_str(), "completed") {
        let tool_use_id = get_str_or_empty2(data, "tool_use_id", "id");
        let content = match data.get_or("output", "content") {
            Some(v) => Some(v.clone()),
            None => None,
        };
        let is_error = data.get_bool("is_error");
        let mut blocks: Vec<ContentBlock> = Vec::new();
        blocks.push(ContentBlock::ToolResult(ToolResultBlock { tool_use_id, content, is_error }));
        let ghost bv = blocks@;
        let msg = Message::Assistant(
            AssistantMessage {
                content: blocks,
                model: String::new(),
                parent_tool_use_id: None,
                error: None,
            },
        );
        proof {
            assert(view_blocks(bv) =~= parse_tool_call_event_v(data.jv())
                ->Ok_0->0->Assistant_0.content);
        }
        Ok(Some(msg))
    } else {
        Ok(None)
    }
}

fn parse_result_event(data: &Json) -> (r: Result<Option<Message>, Error>)
    ensures
        r is Ok,
        codec_result_v(r) == parse_result_event_v(data.jv()),
{
    let subtype = match data.get_str("subtype") {
        Some(s) => s.clone(),
        None => String::from_str("success"),
    };
    let duration_ms = match data.get_u64("duration_ms") {
        Some(d) => d,
        None => 0,
    };
    let duration_api_ms = match data.get_u64("duration_api_ms") {
        Some(d) => d,
        None => 0,
    };
    let is_error = match data.get_bool("is_error") {
        Some(b) => b,
        None => false,
    };
    let num_turns: u32 = match data.get_u64("num_turns") {
        Some(n) => (n % 0x1_0000_0000u64) as u32,
        None => 1,
    };
    let session_id = get_str_or_empty2(data, "session_id", "chatId");
    let total_cost_usd = match data.get("total_cost_usd") {
        Some(Json::Num(n)) => Some(n.clone()),
        _ => None,
    };
    let usage = match data.get("usage") {
        Some(v) => Some(v.clone()),
        None => None,
    };
    let result = match data.get_str("result") {
        Some(s) => Some(s.clone()),
        None => None,
    };
    let structured_output = match data.get("structured_output") {
        Some(v) => Some(v.clone()),
        None => None,
    };
    Ok(
        Some(
            Message::Result(
                ResultMessage {
                    subtype,
                    duration_ms,
                    duration_api_ms,
                    is_error,
                    num_turns,
                    session_id,
                    total_cost_usd,
                    usage,
                    result,
                    structured_output,
                },
            ),
        ),
    )
}

fn parse_user_event(data: &Json) -> (r: Result<Option<Message>, Error>)
    ensures
        r is Ok,
        codec_result_v(r) == parse_user_event_v(data.jv()),
{
    let message = match data.get("message") {
        Some(m) => m,
        None => data,
    };
    let content = match message.get("content") {
        Some(c) => match c {
            Json::Str(s) => UserContent::Text(s.clone()),
            Json::Arr(_) => UserContent::Text(json_to_string(c)),
            _ => UserContent::Text(String::new()),
        },
        None => UserContent::Text(String::new()),
    };
    let uuid = match data.get_str("uuid") {
        Some(s) => Some(s.clone()),
        None => None,
    };
    let parent_tool_use_id = match data.get_str("parent_tool_use_id") {
        Some(s) => Some(s.clone()),
        None => None,
    };
    let tool_use_result = match data.get("tool_use_result") {
        Some(v) => Some(v.clone()),
        None => None,
    };
    Ok(
        Some(
            Message::User(UserMessage { content, uuid, parent_tool_use_id, tool_use_result }),
        ),
    )
}

/// Parse one wire event of this backend into a typed [`Message`].
///
/// Returns `Ok(None)` for unrecognised event types (forward compatibility);
/// every recognised event maps with defined defaults, so this codec never
/// returns an error.
pub fn parse_cursor_event(data: &Json) -> (r: Result<Option<Message>, Error>)
    ensures
        r is Ok,
        codec_result_v(r) == parse_cursor_event_v(data.jv()),
{
    let event_type = match data.get_str("type") {
        Some(t) => t.clone(),
        None => String::new(),
    };
    let t = event_type.as_str();
    if str_eq(t, "system") {
        parse_system_event(data)
    } else if str_eq(t, "assistant") {
        parse_assistant_event(data)
    } else if str_eq(t, "thinking") {
        parse_thinking_event(data)
    } else if str_eq(t, "tool_call") {
        parse_tool_call_event(data)
    } else if str_eq(t, "result") {
        parse_result_event(data)
    } else if str_eq(t, "user") {
        parse_user_event(data)
    } else {
        Ok(None)
    }
}

/// An event whose type tag is none of the recognised ones is skipped, not
/// rejected.
pub proof fn lemma_unknown_cursor_event_is_skipped(j: JsonV)
    requires
        str_or_empty(j, "type"@) != "system"@,
        str_or_empty(j, "type"@) != "assistant"@,
        str_or_empty(j, "type"@) != "thinking"@,
        str_or_empty(j, "type"@) != "tool_call"@,
        str_or_empty(j, "type"@) != "result"@,
        str_or_empty(j, "type"@) != "user"@,
    ensures
        parse_cursor_event_v(j) == Ok::<Option<MessageV>, Seq<char>>(None),
{
}

} // verus!
