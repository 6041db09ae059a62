//! Codec for the JSON-RPC app-server backend and its one-shot JSONL mode.
//!
//! Two entry points: `parse_exec_event` for one-shot `--json` output lines,
//! and `parse_app_server_notification` for JSON-RPC notifications. Both map
//! the backend's item vocabulary onto the shared message model; a command
//! execution item becomes a synthetic tool-use/tool-result pair.

use vstd::prelude::*;

use crate::error::Error;
use crate::json::{jv_get, jv_get_or, jv_get_str, str_eq, Json, JsonNumV, JsonV};
use crate::jsontext::parse_json;
use crate::types::{
    codec_result_v, view_blocks, AssistantMessage, AssistantMessageV, ContentBlock, ContentBlockV,
    Message, MessageV, ResultMessage, ResultMessageV, SystemMessage, SystemMessageV, TextBlock,
    ThinkingBlock, ToolResultBlock, ToolUseBlock,
};

verus! {

/// Key `k` of object `v`, as a signed integer.
pub open spec fn jv_get_int(v: JsonV, k: Seq<char>) -> Option<int> {
    match jv_get(v, k) {
        Some(JsonV::Num(JsonNumV::Int(i))) => Some(i),
        _ => None,
    }
}

/// The string at key `k`, or empty when absent or not a string.
pub open spec fn str_or_empty(v: JsonV, k: Seq<char>) -> Seq<char> {
    match jv_get_str(v, k) {
        Some(s) => s,
        None => Seq::empty(),
    }
}

/// A synthetic `system` payload of the shape `{type, subtype, <key>: <text>}`.
pub open spec fn system_payload_v(subtype: Seq<char>, key: Seq<char>, text: Seq<char>) -> JsonV {
    JsonV::Obj(
        seq![
            ("type"@, JsonV::Str("system"@)),
            ("subtype"@, JsonV::Str(subtype)),
            (key, JsonV::Str(text)),
        ],
    )
}

/// An assistant message holding exactly the given blocks and model.
pub open spec fn assistant_v(blocks: Seq<ContentBlockV>, model: Seq<char>) -> MessageV {
    MessageV::Assistant(
        AssistantMessageV { content: blocks, model, parent_tool_use_id: None, error: None },
    )
}

/// The texts of an item list's `text` fields, concatenated.
pub open spec fn concat_texts(items: Seq<JsonV>) -> Seq<char>
    decreases items.len(),
{
    if items.len() == 0 {
        Seq::empty()
    } else {
        (match jv_get_str(items[0], "text"@) {
            Some(s) => s,
            None => Seq::empty(),
        }) + concat_texts(items.drop_first())
    }
}

/// A `thread/started` style event, as a `system: init` message carrying the
/// thread id under the camel-case key whichever spelling it arrived with.
pub open spec fn thread_started_v(thread_id: Seq<char>) -> MessageV {
    MessageV::System(
        SystemMessageV {
            subtype: "init"@,
            data: JsonV::Obj(
                seq![
                    ("type"@, JsonV::Str("system"@)),
                    ("subtype"@, JsonV::Str("init"@)),
                    ("threadId"@, JsonV::Str(thread_id)),
                ],
            ),
        },
    )
}

/// A `turn/completed` style event, as the turn's result message.
pub open spec fn parse_turn_completed_v(params: JsonV) -> Result<Option<MessageV>, Seq<char>> {
    Ok(
        Some(
            MessageV::Result(
                ResultMessageV {
                    subtype: "success"@,
                    duration_ms: 0,
                    duration_api_ms: 0,
                    is_error: false,
                    num_turns: 1,
                    session_id: str_or_empty(params, "threadId"@),
                    total_cost_usd: None,
                    usage: jv_get(params, "usage"@),
                    result: None,
                    structured_output: None,
                },
            ),
        ),
    )
}

/// An `item/completed` event (either protocol's spelling), mapped to the
/// model by item type.
pub open spec fn parse_item_completed_v(params: JsonV) -> Result<Option<MessageV>, Seq<char>> {
    let item = match jv_get(params, "item"@) {
        Some(it) => it,
        None => params,
    };
    let item_type = str_or_empty(item, "type"@);
    if item_type == "agent_message"@ || item_type == "message"@ {
        let text = match jv_get(item, "content"@) {
            Some(JsonV::Arr(arr)) => concat_texts(arr),
            _ => match jv_get_or(item, "rawText"@, "text"@) {
                Some(JsonV::Str(s)) => s,
                _ => Seq::empty(),
            },
        };
        if text.len() == 0 {
            Ok(None)
        } else {
            Ok(
                Some(
                    assistant_v(
                        seq![ContentBlockV::Text { text }],
                        str_or_empty(item, "model"@),
                    ),
                ),
            )
        }
    } else if item_type == "reasoning"@ {
        let text = match jv_get(item, "summary"@) {
            Some(JsonV::Arr(arr)) => concat_texts(arr),
            _ => match jv_get_str(item, "text"@) {
                Some(s) => s,
                None => Seq::empty(),
            },
        };
        if text.len() == 0 {
            Ok(None)
        } else {
            Ok(
                Some(
                    assistant_v(
                        seq![
                            ContentBlockV::Thinking { thinking: text, signature: Seq::empty() },
                        ],
                        Seq::empty(),
                    ),
                ),
            )
        }
    } else if item_type == "command_execution"@ {
        let id = str_or_empty(item, "id"@);
        Ok(
            Some(
                assistant_v(
                    seq![
                        ContentBlockV::ToolUse {
                            id,
                            name: "Bash"@,
                            input: JsonV::Obj(
                                seq![
                                    ("command"@, JsonV::Str(str_or_empty(item, "command"@))),
                                ],
                            ),
                        },
                        ContentBlockV::ToolResult {
                            tool_use_id: id,
                            content: jv_get(item, "output"@),
                            is_error: match jv_get_int(item, "exitCode"@) {
                                Some(c) => Some(c != 0),
                                None => None,
                            },
                        },
                    ],
                    Seq::empty(),
                ),
            ),
        )
    } else if item_type == "file_change"@ {
        let id = str_or_empty(item, "id"@);
        Ok(
            Some(
                assistant_v(
                    seq![
                        ContentBlockV::ToolUse {
                            id,
                            name: "Edit"@,
                            input: JsonV::Obj(
                                seq![
                                    ("file_path"@, JsonV::Str(str_or_empty(item, "filePath"@))),
                                ],
                            ),
                        },
                        ContentBlockV::ToolResult {
                            tool_use_id: id,
                            content: Some(JsonV::Str("File change applied"@)),
                            is_error: Some(false),
                        },
                    ],
                    Seq::empty(),
                ),
            ),
        )
    } else {
        Ok(None)
    }
}

/// A text delta event: a partial assistant message, or nothing when empty.
pub open spec fn parse_delta_v(params: JsonV, thinking: bool) -> Result<
    Option<MessageV>,
    Seq<char>,
> {
    let text = str_or_empty(params, "delta"@);
    if text.len() == 0 {
        Ok(None)
    } else if thinking {
        Ok(
            Some(
                assistant_v(
                    seq![ContentBlockV::Thinking { thinking: text, signature: Seq::empty() }],
                    Seq::empty(),
                ),
            ),
        )
    } else {
        Ok(Some(assistant_v(seq![ContentBlockV::Text { text }], Seq::empty())))
    }
}

/// An output delta event: a system message carrying the partial output.
pub open spec fn parse_output_delta_v(params: JsonV, subtype: Seq<char>) -> Result<
    Option<MessageV>,
    Seq<char>,
> {
    let delta = str_or_empty(params, "delta"@);
    if delta.len() == 0 {
        Ok(None)
    } else {
        Ok(
            Some(
                MessageV::System(
                    SystemMessageV { subtype, data: system_payload_v(subtype, "output"@, delta) },
                ),
            ),
        )
    }
}

/// A one-shot `message` event.
pub open spec fn parse_exec_message_v(j: JsonV) -> Result<Option<MessageV>, Seq<char>> {
    let role = str_or_empty(j, "role"@);
    if role == "assistant"@ {
        let text = str_or_empty(j, "content"@);
        if text.len() == 0 {
            Ok(None)
        } else {
            Ok(Some(assistant_v(seq![ContentBlockV::Text { text }], Seq::empty())))
        }
    } else if role == "system"@ {
        Ok(Some(MessageV::System(SystemMessageV { subtype: "init"@, data: j })))
    } else {
        Ok(None)
    }
}

/// The tool input a `function_call` event carries: whatever its
/// `arguments` JSON text reads as, an empty object when that text is bad or
/// absent.
pub open spec fn fc_input_v(j: JsonV) -> JsonV {
    match jv_get_str(j, "arguments"@) {
        Some(args) => match crate::jsontext::spec_json(args) {
            Some(v) => v,
            None => JsonV::Obj(Seq::empty()),
        },
        None => JsonV::Obj(Seq::empty()),
    }
}

/// A one-shot `function_call` event: a tool use whose input is the value
/// its `arguments` text reads as.
pub open spec fn parse_exec_function_call_v(j: JsonV) -> Result<Option<MessageV>, Seq<char>> {
    Ok(
        Some(
            assistant_v(
                seq![
                    ContentBlockV::ToolUse {
                        id: str_or_empty(j, "call_id"@),
                        name: str_or_empty(j, "name"@),
                        input: fc_input_v(j),
                    },
                ],
                Seq::empty(),
            ),
        ),
    )
}

/// A one-shot `function_call_output` event.
pub open spec fn parse_exec_function_output_v(j: JsonV) -> Result<Option<MessageV>, Seq<char>> {
    Ok(
        Some(
            assistant_v(
                seq![
                    ContentBlockV::ToolResult {
                        tool_use_id: str_or_empty(j, "call_id"@),
                        content: jv_get(j, "output"@),
                        is_error: None,
                    },
                ],
                Seq::empty(),
            ),
        ),
    )
}

/// The message named in an error-ish event, with a default.
pub open spec fn error_message_or(j: JsonV, dflt: Seq<char>) -> Seq<char> {
    match jv_get_str(j, "message"@) {
        Some(m) => m,
        None => dflt,
    }
}

/// An error event as a `system: error` message.
pub open spec fn system_error_v(text: Seq<char>) -> MessageV {
    MessageV::System(
        SystemMessageV { subtype: "error"@, data: system_payload_v("error"@, "message"@, text) },
    )
}

/// One line of one-shot `--json` output, mapped to the model.
pub open spec fn parse_exec_event_v(j: JsonV) -> Result<Option<MessageV>, Seq<char>> {
    let t = str_or_empty(j, "type"@);
    if t == "message"@ {
        parse_exec_message_v(j)
    } else if t == "function_call"@ {
        parse_exec_function_call_v(j)
    } else if t == "function_call_output"@ {
        parse_exec_function_output_v(j)
    } else if t == "item.completed"@ {
        parse_item_completed_v(j)
    } else if t == "turn.completed"@ {
        parse_turn_completed_v(j)
    } else if t == "thread.started"@ {
        Ok(
            Some(
                thread_started_v(
                    match jv_get_or(j, "threadId"@, "thread_id"@) {
                        Some(JsonV::Str(s)) => s,
                        _ => Seq::empty(),
                    },
                ),
            ),
        )
    } else if t == "turn.started"@ {
        Ok(Some(MessageV::System(SystemMessageV { subtype: "turn_started"@, data: j })))
    } else if t == "error"@ {
        Ok(Some(system_error_v(error_message_or(j, "Unknown error"@))))
    } else if t == "turn.failed"@ {
        Ok(
            Some(
                system_error_v(
                    match jv_get(j, "error"@) {
                        Some(e) => error_message_or(e, "Turn failed"@),
                        None => "Turn failed"@,
                    },
                ),
            ),
        )
    } else {
        Ok(None)
    }
}

/// One JSON-RPC notification, mapped to the model.
pub open spec fn parse_app_server_notification_v(method: Seq<char>, params: JsonV) -> Result<
    Option<MessageV>,
    Seq<char>,
> {
    if method == "thread/started"@ {
        Ok(Some(thread_started_v(str_or_empty(params, "threadId"@))))
    } else if method == "item/completed"@ {
        parse_item_completed_v(params)
    } else if method == "item/agentMessage/delta"@ {
        parse_delta_v(params, false)
    } else if method == "item/reasoning/summaryTextDelta"@ || method
        == "item/reasoning/textDelta"@ {
        parse_delta_v(params, true)
    } else if method == "item/commandExecution/outputDelta"@ {
        parse_output_delta_v(params, "command_output"@)
    } else if method == "item/fileChange/outputDelta"@ {
        parse_output_delta_v(params, "file_change_output"@)
    } else if method == "turn/completed"@ {
        parse_turn_completed_v(params)
    } else if method == "turn/started"@ {
        Ok(Some(MessageV::System(SystemMessageV { subtype: "turn_started"@, data: params })))
    } else if method == "error"@ {
        Ok(Some(system_error_v(error_message_or(params, "Unknown error"@))))
    } else {
        Ok(None)
    }
}

/// The string at `key`, cloned, or fresh-empty.
fn get_str_or_empty(j: &Json, key: &str) -> (r: String)
    ensures
        r@ == str_or_empty(j.jv(), key@),
{
    match j.get_str(key) {
        Some(s) => s.clone(),
        None => String::new(),
    }
}

/// Build the synthetic `{type, subtype, <key>: <text>}` payload.
fn system_payload(subtype: &str, key: &str, text: String) -> (r: Json)
    ensures
        r.jv() == system_payload_v(subtype@, key@, text@),
{
    let mut fields: Vec<(String, Json)> = Vec::new();
    fields.push((String::from_str("type"), Json::str_of("system")));
    fields.push((String::from_str("subtype"), Json::str_of(subtype)));
    fields.push((String::from_str(key), Json::Str(text)));
    let r = Json::Obj(fields);
    proof {
        assert(fields@.len() == 3);
        assert(fields@[0].0@ == "type"@);
        assert(fields@[0].1.jv() == JsonV::Str("system"@));
        assert(fields@[1].0@ == "subtype"@);
        assert(fields@[1].1.jv() == JsonV::Str(subtype@));
        assert(fields@[2].0@ == key@);
        assert(fields@[2].1.jv() == JsonV::Str(text@));
        assert(r.jv()->Obj_0.len() == 3);
        assert(r.jv()->Obj_0[0] == (fields@[0].0@, fields@[0].1.jv()));
        assert(r.jv()->Obj_0 =~= system_payload_v(subtype@, key@, text@)->Obj_0);
        assert(r.jv() =~= system_payload_v(subtype@, key@, text@));
    }
    r
}

/// An assistant message around the given blocks.
fn assistant_message(blocks: Vec<ContentBlock>, model: String) -> (r: Message)
    ensures
        r.dv() == assistant_v(view_blocks(blocks@), model@),
{
    Message::Assistant(
        AssistantMessage { content: blocks, model, parent_tool_use_id: None, error: None },
    )
}

/// The `thread/started` system message for a thread id.
fn thread_started_message(thread_id: String) -> (r: Message)
    ensures
        r.dv() == thread_started_v(thread_id@),
{
    let ghost tid = thread_id@;
    let mut fields: Vec<(String, Json)> = Vec::new();
    fields.push((String::from_str("type"), Json::str_of("system")));
    fields.push((String::from_str("subtype"), Json::str_of("init")));
    fields.push((String::from_str("threadId"), Json::Str(thread_id)));
    let data = Json::Obj(fields);
    proof {
        assert(fields@.len() == 3);
        assert(fields@[0].0@ == "type"@);
        assert(fields@[0].1.jv() == JsonV::Str("system"@));
        assert(fields@[1].0@ == "subtype"@);
        assert(fields@[1].1.jv() == JsonV::Str("init"@));
        assert(fields@[2].0@ == "threadId"@);
        assert(fields@[2].1.jv() == JsonV::Str(tid));
        assert(data.jv()->Obj_0[0] == (fields@[0].0@, fields@[0].1.jv()));
        assert(data.jv()->Obj_0[1] == (fields@[1].0@, fields@[1].1.jv()));
        assert(data.jv()->Obj_0[2] == (fields@[2].0@, fields@[2].1.jv()));
        assert(data.jv()->Obj_0 =~= thread_started_v(tid)->System_0.data->Obj_0);
        assert(data.jv() =~= thread_started_v(tid)->System_0.data);
    }
    Message::System(SystemMessage { subtype: String::from_str("init"), data })
}

/// The `system: error` message for an error text.
fn system_error_message(text: String) -> (r: Message)
    ensures
        r.dv() == system_error_v(text@),
{
    let data = system_payload("error", "message", text);
    Message::System(SystemMessage { subtype: String::from_str("error"), data })
}

/// Concatenating one more item's text extends the concatenation.
proof fn lemma_concat_texts_step(items: Seq<JsonV>, i: int)
    requires
        0 <= i < items.len(),
    ensures
        concat_texts(items.take(i + 1)) == concat_texts(items.take(i)) + (match jv_get_str(
            items[i],
            "text"@,
        ) {
            Some(s) => s,
            None => Seq::<char>::empty(),
        }),
    decreases i,
{
    let head = |s: Seq<JsonV>|
        match jv_get_str(s[0], "text"@) {
            Some(t) => t,
            None => Seq::<char>::empty(),
        };
    if i == 0 {
        assert(items.take(1)[0] == items[0]);
        assert(items.take(1).drop_first() =~= Seq::<JsonV>::empty());
        assert(concat_texts(Seq::<JsonV>::empty()) == Seq::<char>::empty());
        assert(items.take(0) =~= Seq::<JsonV>::empty());
        assert(concat_texts(items.take(1)) =~= concat_texts(items.take(0)) + head(items));
    } else {
        lemma_concat_texts_step(items.drop_first(), i - 1);
        assert(items.take(i + 1).drop_first() =~= items.drop_first().take(i));
        assert(items.take(i).drop_first() =~= items.drop_first().take(i - 1));
        assert(items.take(i + 1)[0] == items[0]);
        assert(items.take(i)[0] == items[0]);
        assert(items.drop_first()[i - 1] == items[i]);
        assert(concat_texts(items.take(i + 1)) =~= concat_texts(items.take(i)) + (match jv_get_str(
            items[i],
            "text"@,
        ) {
            Some(s) => s,
            None => Seq::<char>::empty(),
        }));
    }
}

/// Concatenate the `text` fields of an item array.
fn concat_item_texts(arr: &Vec<Json>) -> (r: String)
    ensures
        r@ == concat_texts(arr@.map_values(|j: Json| j.jv())),
{
    let ghost sv = arr@.map_values(|j: Json| j.jv());
    let mut out = String::new();
    let n = arr.len();
    let mut i: usize = 0;
    #[verifier::loop_isolation(false)]
    while i < n
        invariant
            i <= n,
            out@ == concat_texts(sv.take(i as int)),
        decreases n - i,
    {
        match arr[i].get_str("text") {
            Some(s) => {
                out.append(s.as_str());
            },
            None => {},
        }
        proof {
            lemma_concat_texts_step(sv, i as int);
        }
        i += 1;
    }
    proof {
        assert(sv.take(n as int) =~= sv);
    }
    out
}

/// Parse an `item/completed` event (either protocol's spelling).
fn parse_item_completed(params: &Json) -> (r: Result<Option<Message>, Error>)
    ensures
        r is Ok,
        codec_result_v(r) == parse_item_completed_v(params.jv()),
{
    let item = match params.get("item") {
        Some(it) => it,
        None => params,
    };
    let item_type = get_str_or_empty(item, "type");
    if str_eq(item_type.as_str(), "agent_message") || str_eq(item_type.as_str(), "message") {
        let text: String = match item.get("content") {
            Some(Json::Arr(arr)) => {
                proof {
                    crate::json::lemma_arr_view(*arr);
                }
                concat_item_texts(arr)
            },
            _ => {
                match item.get_or("rawText", "text") {
                    Some(Json::Str(s)) => s.clone(),
                    _ => String::new(),
                }
            },
        };
        if text.unicode_len() == 0 {
            proof {
                assert(text@ =~= Seq::<char>::empty());
            }
            return Ok(None);
        }
        let model = get_str_or_empty(item, "model");
        let mut blocks: Vec<ContentBlock> = Vec::new();
        blocks.push(ContentBlock::Text(TextBlock { text }));
        let msg = assistant_message(blocks, model);
        proof {
            assert(view_blocks(seq![ContentBlock::Text(TextBlock { text })]) =~= seq![
                ContentBlockV::Text { text: text@ },
            ]);
        }
        Ok(Some(msg))
    } else if str_eq(item_type.as_str(), "reasoning") {
        let text: String = match item.get("summary") {
            Some(Json::Arr(arr)) => {
                proof {
                    crate::json::lemma_arr_view(*arr);
                }
                concat_item_texts(arr)
            },
            _ => {
                match item.get_str("text") {
                    Some(s) => s.clone(),
                    None => String::new(),
                }
            },
        };
        if text.unicode_len() == 0 {
            proof {
                assert(text@ =~= Seq::<char>::empty());
            }
            return Ok(None);
        }
        let mut blocks: Vec<ContentBlock> = Vec::new();
        blocks.push(
            ContentBlock::Thinking(ThinkingBlock { thinking: text, signature: String::new() }),
        );
        let ghost bv = blocks@;
        let msg = assistant_message(blocks, String::new());
        proof {
            assert(view_blocks(bv) =~= seq![
                ContentBlockV::Thinking { thinking: text@, signature: Seq::<char>::empty() },
            ]);
        }
        Ok(Some(msg))
    } else if str_eq(item_type.as_str(), "command_execution") {
        let id = get_str_or_empty(item, "id");
        let command = get_str_or_empty(item, "command");
        let output = match item.get("output") {
            Some(v) => Some(v.clone()),
            None => None,
        };
        let exit_code = match item.get("exitCode") {
            Some(v) => v.as_i64(),
            None => None,
        };
        let ghost commandv = command@;
        let mut input_fields: Vec<(String, Json)> = Vec::new();
        input_fields.push((String::from_str("command"), Json::Str(command)));
        let input = Json::Obj(input_fields);
        proof {
            assert(input_fields@.len() == 1);
            assert(input_fields@[0].0@ == "command"@);
            assert(input_fields@[0].1.jv() == JsonV::Str(commandv));
            assert(input.jv()->Obj_0[0] == (input_fields@[0].0@, input_fields@[0].1.jv()));
        }
        let mut blocks: Vec<ContentBlock> = Vec::new();
        blocks.push(
            ContentBlock::ToolUse(
                ToolUseBlock { id: id.clone(), name: String::from_str("Bash"), input },
            ),
        );
        blocks.push(
            ContentBlock::ToolResult(
                ToolResultBlock {
                    tool_use_id: id,
                    content: output,
                    is_error: match exit_code {
                        Some(c) => Some(c != 0),
                        None => None,
                    },
                },
            ),
        );
        let ghost bv = blocks@;
        let msg = assistant_message(blocks, String::new());
        proof {
            let spec_blocks = parse_item_completed_v(params.jv())->Ok_0->0->Assistant_0.content;
            assert(input.jv()->Obj_0 =~= spec_blocks[0]->ToolUse_input->Obj_0);
            assert(input.jv() =~= spec_blocks[0]->ToolUse_input);
            assert(view_blocks(bv) =~= spec_blocks);
        }
        Ok(Some(msg))
    } else if str_eq(item_type.as_str(), "file_change") {
        let id = get_str_or_empty(item, "id");
        let file_path = get_str_or_empty(item, "filePath");
        let ghost file_pathv = file_path@;
        let mut input_fields: Vec<(String, Json)> = Vec::new();
        input_fields.push((String::from_str("file_path"), Json::Str(file_path)));
        let input = Json::Obj(input_fields);
        proof {
            assert(input_fields@.len() == 1);
            assert(input_fields@[0].0@ == "file_path"@);
            assert(input_fields@[0].1.jv() == JsonV::Str(file_pathv));
            assert(input.jv()->Obj_0[0] == (input_fields@[0].0@, input_fields@[0].1.jv()));
        }
        let mut blocks: Vec<ContentBlock> = Vec::new();
        blocks.push(
            ContentBlock::ToolUse(
                ToolUseBlock { id: id.clone(), name: String::from_str("Edit"), input },
            ),
        );
        blocks.push(
            ContentBlock::ToolResult(
                ToolResultBlock {
                    tool_use_id: id,
                    content: Some(Json::str_of("File change applied")),
                    is_error: Some(false),
                },
            ),
        );
        let ghost bv = blocks@;
        let msg = assistant_message(blocks, String::new());
        proof {
            let spec_blocks = parse_item_completed_v(params.jv())->Ok_0->0->Assistant_0.content;
            assert(input.jv()->Obj_0 =~= spec_blocks[0]->ToolUse_input->Obj_0);
            assert(input.jv() =~= spec_blocks[0]->ToolUse_input);
            assert(view_blocks(bv) =~= spec_blocks);
        }
        Ok(Some(msg))
    } else {
        Ok(None)
    }
}

/// Parse a `turn/completed` event into the turn's result message.
fn parse_turn_completed(params: &Json) -> (r: Result<Option<Message>, Error>)
    ensures
        r is Ok,
        codec_result_v(r) == parse_turn_completed_v(params.jv()),
{
    let usage = match params.get("usage") {
        Some(v) => Some(v.clone()),
        None => None,
    };
    let thread_id = get_str_or_empty(params, "threadId");
    Ok(
        Some(
            Message::Result(
                ResultMessage {
                    subtype: String::from_str("success"),
                    duration_ms: 0,
                    duration_api_ms: 0,
                    is_error: false,
                    num_turns: 1,
                    session_id: thread_id,
                    total_cost_usd: None,
                    usage,
                    result: None,
                    structured_output: None,
                },
            ),
        ),
    )
}

fn parse_delta(params: &Json, thinking: bool) -> (r: Result<Option<Message>, Error>)
    ensures
        r is Ok,
        codec_result_v(r) == parse_delta_v(params.jv(), thinking),
{
    let text = get_str_or_empty(params, "delta");
    if text.unicode_len() == 0 {
        proof {
            assert(text@ =~= Seq::<char>::empty());
        }
        return Ok(None);
    }
    let mut blocks: Vec<ContentBlock> = Vec::new();
    if thinking {
        blocks.push(
            ContentBlock::Thinking(ThinkingBlock { thinking: text, signature: String::new() }),
        );
        let ghost bv = blocks@;
        let msg = assistant_message(blocks, String::new());
        proof {
            assert(view_blocks(bv) =~= parse_delta_v(params.jv(), thinking)
                ->Ok_0->0->Assistant_0.content);
        }
        Ok(Some(msg))
    } else {
        blocks.push(ContentBlock::Text(TextBlock { text }));
        let ghost bv = blocks@;
        let msg = assistant_message(blocks, String::new());
        proof {
            assert(view_blocks(bv) =~= parse_delta_v(params.jv(), thinking)
                ->Ok_0->0->Assistant_0.content);
        }
        Ok(Some(msg))
    }
}

fn parse_output_delta(params: &Json, subtype: &str) -> (r: Result<Option<Message>, Error>)
    ensures
        r is Ok,
        codec_result_v(r) == parse_output_delta_v(params.jv(), subtype@),
{
    let delta = get_str_or_empty(params, "delta");
    if delta.unicode_len() == 0 {
        proof {
            assert(delta@ =~= Seq::<char>::empty());
        }
        return Ok(None);
    }
    let data = system_payload(subtype, "output", delta);
    Ok(Some(Message::System(SystemMessage { subtype: String::from_str(subtype), data })))
}

fn parse_exec_message(data: &Json) -> (r: Result<Option<Message>, Error>)
    ensures
        r is Ok,
        codec_result_v(r) == parse_exec_message_v(data.jv()),
{
    let role = get_str_or_empty(data, "role");
    if str_eq(role.as_str(), "assistant") {
        let text = get_str_or_empty(data, "content");
        if text.unicode_len() == 0 {
            proof {
                assert(text@ =~= Seq::<char>::empty());
            }
            return Ok(None);
        }
        let mut blocks: Vec<ContentBlock> = Vec::new();
        blocks.push(ContentBlock::Text(TextBlock { text }));
        let ghost bv = blocks@;
        let msg = assistant_message(blocks, String::new());
        proof {
            assert(view_blocks(bv) =~= parse_exec_message_v(data.jv())
                ->Ok_0->0->Assistant_0.content);
        }
        Ok(Some(msg))
    } else if str_eq(role.as_str(), "system") {
        Ok(
            Some(
                Message::System(
                    SystemMessage { subtype: String::from_str("init"), data: data.clone() },
                ),
            ),
        )
    } else {
        Ok(None)
    }
}

fn parse_exec_function_call(data: &Json) -> (r: Result<Option<Message>, Error>)
    ensures
        r is Ok,
        codec_result_v(r) == parse_exec_function_call_v(data.jv()),
{
    let call_id = get_str_or_empty(data, "call_id");
    let name = get_str_or_empty(data, "name");
    let input = match data.get_str("arguments") {
        Some(args) => match parse_json(args.as_str()) {
            Ok(v) => v,
            Err(_) => Json::Obj(Vec::new()),
        },
        None => Json::Obj(Vec::new()),
    };
    proof {
        if input.jv() != fc_input_v(data.jv()) {
            assert(input.jv()->Obj_0 =~= Seq::<(Seq<char>, JsonV)>::empty());
            assert(input.jv() =~= JsonV::Obj(Seq::empty()));
        }
    }
    let mut blocks: Vec<ContentBlock> = Vec::new();
    blocks.push(ContentBlock::ToolUse(ToolUseBlock { id: call_id, name, input }));
    let ghost bv = blocks@;
    let msg = assistant_message(blocks, String::new());
    proof {
        assert(view_blocks(bv) =~= parse_exec_function_call_v(data.jv())
            ->Ok_0->0->Assistant_0.content);
        assert(codec_result_v(Ok(Some(msg))) == parse_exec_function_call_v(data.jv()));
    }
    Ok(Some(msg))
}

fn parse_exec_function_output(data: &Json) -> (r: Result<Option<Message>, Error>)
    ensures
        r is Ok,
        codec_result_v(r) == parse_exec_function_output_v(data.jv()),
{
    let call_id = get_str_or_empty(data, "call_id");
    let output = match data.get("output") {
        Some(v) => Some(v.clone()),
        None => None,
    };
    let mut blocks: Vec<ContentBlock> = Vec::new();
    blocks.push(
        ContentBlock::ToolResult(
            ToolResultBlock { tool_use_id: call_id, content: output, is_error: None },
        ),
    );
    let ghost bv = blocks@;
    let msg = assistant_message(blocks, String::new());
    proof {
        assert(view_blocks(bv) =~= parse_exec_function_output_v(data.jv())
            ->Ok_0->0->Assistant_0.content);
    }
    Ok(Some(msg))
}

fn parse_exec_thread_started(data: &Json) -> (r: Result<Option<Message>, Error>)
    ensures
        r is Ok,
        codec_result_v(r) == Ok::<_, Seq<char>>(
            Some(
                thread_started_v(
                    match jv_get_or(data.jv(), "threadId"@, "thread_id"@) {
                        Some(JsonV::Str(s)) => s,
                        _ => Seq::<char>::empty(),
                    },
                ),
            ),
        ),
{
    let thread_id = match data.get_or("threadId", "thread_id") {
        Some(Json::Str(s)) => s.clone(),
        _ => String::new(),
    };
    Ok(Some(thread_started_message(thread_id)))
}

/// Parse one line of one-shot `--json` output into a typed [`Message`].
///
/// Unknown event types yield `Ok(None)`. A `function_call` event's
/// `arguments` text is read as JSON; when it is not valid JSON the tool
/// input falls back to an empty object.
pub fn parse_exec_event(data: &Json) -> (r: Result<Option<Message>, Error>)
    ensures
        r is Ok,
        codec_result_v(r) == parse_exec_event_v(data.jv()),
{
    let event_type = get_str_or_empty(data, "type");
    let t = event_type.as_str();
    if str_eq(t, "message") {
        let r = parse_exec_message(data);
        proof {
            assert(codec_result_v(r) == parse_exec_event_v(data.jv()));
        }
        r
    } else if str_eq(t, "function_call") {
        let r = parse_exec_function_call(data);
        proof {
            assert(codec_result_v(r) == parse_exec_event_v(data.jv()));
        }
        r
    } else if str_eq(t, "function_call_output") {
        let r = parse_exec_function_output(data);
        proof {
            assert(codec_result_v(r) == parse_exec_event_v(data.jv()));
        }
        r
    } else if str_eq(t, "item.completed") {
        let r = parse_item_completed(data);
        proof {
            assert(codec_result_v(r) == parse_exec_event_v(data.jv()));
        }
        r
    } else if str_eq(t, "turn.completed") {
        let r = parse_turn_completed(data);
        proof {
            assert(codec_result_v(r) == parse_exec_event_v(data.jv()));
        }
        r
    } else if str_eq(t, "thread.started") {
        let r = parse_exec_thread_started(data);
        proof {
            assert(codec_result_v(r) == parse_exec_event_v(data.jv()));
        }
        r
    } else if str_eq(t, "turn.started") {
        let r: Result<Option<Message>, Error> = Ok(
            Some(
                Message::System(
                    SystemMessage {
                        subtype: String::from_str("turn_started"),
                        data: data.clone(),
                    },
                ),
            ),
        );
        proof {
            assert(codec_result_v(r) == parse_exec_event_v(data.jv()));
        }
        r
    } else if str_eq(t, "error") {
        let message = match data.get_str("message") {
            Some(m) => m.clone(),
            None => String::from_str("Unknown error"),
        };
        let r: Result<Option<Message>, Error> = Ok(Some(system_error_message(message)));
        proof {
            assert(codec_result_v(r) == parse_exec_event_v(data.jv()));
        }
        r
    } else if str_eq(t, "turn.failed") {
        let message = match data.get("error") {
            Some(e) => match e.get_str("message") {
                Some(m) => m.clone(),
                None => String::from_str("Turn failed"),
            },
            None => String::from_str("Turn failed"),
        };
        let r: Result<Option<Message>, Error> = Ok(Some(system_error_message(message)));
        proof {
            assert(codec_result_v(r) == parse_exec_event_v(data.jv()));
        }
        r
    } else {
        let r: Result<Option<Message>, Error> = Ok(None);
        proof {
            assert(codec_result_v(r) == parse_exec_event_v(data.jv()));
        }
        r
    }
}

/// Parse one JSON-RPC notification into a typed [`Message`].
///
/// Unknown methods yield `Ok(None)` (forward compatibility).
pub fn parse_app_server_notification(method: &str, params: &Json) -> (r: Result<
    Option<Message>,
    Error,
>)
    ensures
        r is Ok,
        codec_result_v(r) == parse_app_server_notification_v(method@, params.jv()),
{
    if str_eq(method, "thread/started") {
        let thread_id = get_str_or_empty(params, "threadId");
        Ok(Some(thread_started_message(thread_id)))
    } else if str_eq(method, "item/completed") {
        parse_item_completed(params)
    } else if str_eq(method, "item/agentMessage/delta") {
        parse_delta(params, false)
    } else if str_eq(method, "item/reasoning/summaryTextDelta") || str_eq(
        method,
        "item/reasoning/textDelta",
    ) {
        parse_delta(params, true)
    } else if str_eq(method, "item/commandExecution/outputDelta") {
        parse_output_delta(params, "command_output")
    } else if str_eq(method, "item/fileChange/outputDelta") {
        parse_output_delta(params, "file_change_output")
    } else if str_eq(method, "turn/completed") {
        parse_turn_completed(params)
    } else if str_eq(method, "turn/started") {
        Ok(
            Some(
                Message::System(
                    SystemMessage {
                        subtype: String::from_str("turn_started"),
                        data: params.clone(),
                    },
                ),
            ),
        )
    } else if str_eq(method, "error") {
        let message = match params.get_str("message") {
            Some(m) => m.clone(),
            None => String::from_str("Unknown error"),
        };
        Ok(Some(system_error_message(message)))
    } else {
        Ok(None)
    }
}

/// A notification whose method is none of the recognised ones is skipped,
/// not rejected.
pub proof fn lemma_unknown_notification_is_skipped(method: Seq<char>, params: JsonV)
    requires
        method != "thread/started"@,
        method != "item/completed"@,
        method != "item/agentMessage/delta"@,
        method != "item/reasoning/summaryTextDelta"@,
        method != "item/reasoning/textDelta"@,
        method != "item/commandExecution/outputDelta"@,
        method != "item/fileChange/outputDelta"@,
        method != "turn/completed"@,
        method != "turn/started"@,
        method != "error"@,
    ensures
        parse_app_server_notification_v(method, params) == Ok::<Option<MessageV>, Seq<char>>(None),
{
}

/// A one-shot event whose type tag is none of the recognised ones is
/// skipped, not rejected.
pub proof fn lemma_unknown_exec_event_is_skipped(j: JsonV)
    requires
        str_or_empty(j, "type"@) != "message"@,
        str_or_empty(j, "type"@) != "function_call"@,
        str_or_empty(j, "type"@) != "function_call_output"@,
        str_or_empty(j, "type"@) != "item.completed"@,
        str_or_empty(j, "type"@) != "turn.completed"@,
        str_or_empty(j, "type"@) != "thread.started"@,
        str_or_empty(j, "type"@) != "turn.started"@,
        str_or_empty(j, "type"@) != "error"@,
        str_or_empty(j, "type"@) != "turn.failed"@,
    ensures
        parse_exec_event_v(j) == Ok::<Option<MessageV>, Seq<char>>(None),
{
}

} // verus!
