//! The backend-agnostic message model.
//!
//! Every backend's codec maps its native events onto these types: five
//! message kinds built from four content block kinds. The `*V` types are the
//! mathematical views the contracts speak of.

use vstd::prelude::*;

use crate::error::Error;
use crate::json::{Json, JsonNum, JsonNumV, JsonV};
use crate::options::AssistantMessageError;

verus! {

/// A plain text block.
#[derive(Debug)]
pub struct TextBlock {
    pub text: String,
}

/// A thinking block with its signature.
#[derive(Debug)]
pub struct ThinkingBlock {
    pub thinking: String,
    pub signature: String,
}

/// A tool invocation block.
#[derive(Debug)]
pub struct ToolUseBlock {
    pub id: String,
    pub name: String,
    pub input: Json,
}

/// The result of an earlier tool invocation.
#[derive(Debug)]
pub struct ToolResultBlock {
    pub tool_use_id: String,
    pub content: Option<Json>,
    pub is_error: Option<bool>,
}

/// One block of assistant or user content.
#[derive(Debug)]
pub enum ContentBlock {
    Text(TextBlock),
    Thinking(ThinkingBlock),
    ToolUse(ToolUseBlock),
    ToolResult(ToolResultBlock),
}

/// Mathematical view of a content block.
#[verifier::ext_equal]
pub enum ContentBlockV {
    Text { text: Seq<char> },
    Thinking { thinking: Seq<char>, signature: Seq<char> },
    ToolUse { id: Seq<char>, name: Seq<char>, input: JsonV },
    ToolResult { tool_use_id: Seq<char>, content: Option<JsonV>, is_error: Option<bool> },
}

/// View of an optional string.
pub open spec fn view_opt_str(o: Option<String>) -> Option<Seq<char>> {
    match o {
        Some(s) => Some(s@),
        None => None,
    }
}

/// View of an optional JSON value.
pub open spec fn view_opt_json(o: Option<Json>) -> Option<JsonV> {
    match o {
        Some(j) => Some(j.jv()),
        None => None,
    }
}

/// View of an optional JSON number.
pub open spec fn view_opt_num(o: Option<JsonNum>) -> Option<JsonNumV> {
    match o {
        Some(n) => Some(n.jv()),
        None => None,
    }
}

impl ContentBlock {
    /// Mathematical view of this block.
    pub open spec fn dv(self) -> ContentBlockV {
        match self {
            ContentBlock::Text(b) => ContentBlockV::Text { text: b.text@ },
            ContentBlock::Thinking(b) => ContentBlockV::Thinking {
                thinking: b.thinking@,
                signature: b.signature@,
            },
            ContentBlock::ToolUse(b) => ContentBlockV::ToolUse {
                id: b.id@,
                name: b.name@,
                input: b.input.jv(),
            },
            ContentBlock::ToolResult(b) => ContentBlockV::ToolResult {
                tool_use_id: b.tool_use_id@,
                content: view_opt_json(b.content),
                is_error: b.is_error,
            },
        }
    }
}

/// View of a block sequence.
pub open spec fn view_blocks(blocks: Seq<ContentBlock>) -> Seq<ContentBlockV> {
    blocks.map_values(|b: ContentBlock| b.dv())
}

/// The content of a user message: a bare string, or content blocks.
#[derive(Debug)]
pub enum UserContent {
    Text(String),
    Blocks(Vec<ContentBlock>),
}

/// Mathematical view of user content.
#[verifier::ext_equal]
pub enum UserContentV {
    Text(Seq<char>),
    Blocks(Seq<ContentBlockV>),
}

impl UserContent {
    /// Mathematical view of this content.
    pub open spec fn dv(self) -> UserContentV {
        match self {
            UserContent::Text(s) => UserContentV::Text(s@),
            UserContent::Blocks(blocks) => UserContentV::Blocks(view_blocks(blocks@)),
        }
    }
}

/// A message attributed to the user.
#[derive(Debug)]
pub struct UserMessage {
    pub content: UserContent,
    pub uuid: Option<String>,
    pub parent_tool_use_id: Option<String>,
    pub tool_use_result: Option<Json>,
}

/// Mathematical view of a user message.
#[verifier::ext_equal]
pub struct UserMessageV {
    pub content: UserContentV,
    pub uuid: Option<Seq<char>>,
    pub parent_tool_use_id: Option<Seq<char>>,
    pub tool_use_result: Option<JsonV>,
}

/// A message attributed to the assistant.
#[derive(Debug)]
pub struct AssistantMessage {
    pub content: Vec<ContentBlock>,
    pub model: String,
    pub parent_tool_use_id: Option<String>,
    pub error: Option<AssistantMessageError>,
}

/// Mathematical view of an assistant message.
#[verifier::ext_equal]
pub struct AssistantMessageV {
    pub content: Seq<ContentBlockV>,
    pub model: Seq<char>,
    pub parent_tool_use_id: Option<Seq<char>>,
    pub error: Option<AssistantMessageError>,
}

/// A backend status message with an opaque payload.
#[derive(Debug)]
pub struct SystemMessage {
    pub subtype: String,
    pub data: Json,
}

/// Mathematical view of a system message.
#[verifier::ext_equal]
pub struct SystemMessageV {
    pub subtype: Seq<char>,
    pub data: JsonV,
}

/// The terminal message of a turn.
#[derive(Debug)]
pub struct ResultMessage {
    pub subtype: String,
    pub duration_ms: u64,
    pub duration_api_ms: u64,
    pub is_error: bool,
    pub num_turns: u32,
    pub session_id: String,
    pub total_cost_usd: Option<JsonNum>,
    pub usage: Option<Json>,
    pub result: Option<String>,
    pub structured_output: Option<Json>,
}

/// Mathematical view of a result message.
#[verifier::ext_equal]
pub struct ResultMessageV {
    pub subtype: Seq<char>,
    pub duration_ms: u64,
    pub duration_api_ms: u64,
    pub is_error: bool,
    pub num_turns: u32,
    pub session_id: Seq<char>,
    pub total_cost_usd: Option<JsonNumV>,
    pub usage: Option<JsonV>,
    pub result: Option<Seq<char>>,
    pub structured_output: Option<JsonV>,
}

/// A partial-output streaming event.
#[derive(Debug)]
pub struct StreamEvent {
    pub uuid: String,
    pub session_id: String,
    pub event: Json,
    pub parent_tool_use_id: Option<String>,
}

/// Mathematical view of a streaming event.
#[verifier::ext_equal]
pub struct StreamEventV {
    pub uuid: Seq<char>,
    pub session_id: Seq<char>,
    pub event: JsonV,
    pub parent_tool_use_id: Option<Seq<char>>,
}

/// A normalised message from any backend.
#[derive(Debug)]
pub enum Message {
    User(UserMessage),
    Assistant(AssistantMessage),
    System(SystemMessage),
    Result(ResultMessage),
    StreamEvent(StreamEvent),
}

/// Mathematical view of a message.
#[verifier::ext_equal]
pub enum MessageV {
    User(UserMessageV),
    Assistant(AssistantMessageV),
    System(SystemMessageV),
    Result(ResultMessageV),
    StreamEvent(StreamEventV),
}

impl Message {
    /// Mathematical view of this message.
    pub open spec fn dv(self) -> MessageV {
        match self {
            Message::User(m) => MessageV::User(
                UserMessageV {
                    content: m.content.dv(),
                    uuid: view_opt_str(m.uuid),
                    parent_tool_use_id: view_opt_str(m.parent_tool_use_id),
                    tool_use_result: view_opt_json(m.tool_use_result),
                },
            ),
            Message::Assistant(m) => MessageV::Assistant(
                AssistantMessageV {
                    content: view_blocks(m.content@),
                    model: m.model@,
                    parent_tool_use_id: view_opt_str(m.parent_tool_use_id),
                    error: m.error,
                },
            ),
            Message::System(m) => MessageV::System(
                SystemMessageV { subtype: m.subtype@, data: m.data.jv() },
            ),
            Message::Result(m) => MessageV::Result(
                ResultMessageV {
                    subtype: m.subtype@,
                    duration_ms: m.duration_ms,
                    duration_api_ms: m.duration_api_ms,
                    is_error: m.is_error,
                    num_turns: m.num_turns,
                    session_id: m.session_id@,
                    total_cost_usd: view_opt_num(m.total_cost_usd),
                    usage: view_opt_json(m.usage),
                    result: view_opt_str(m.result),
                    structured_output: view_opt_json(m.structured_output),
                },
            ),
            Message::StreamEvent(m) => MessageV::StreamEvent(
                StreamEventV {
                    uuid: m.uuid@,
                    session_id: m.session_id@,
                    event: m.event.jv(),
                    parent_tool_use_id: view_opt_str(m.parent_tool_use_id),
                },
            ),
        }
    }
}

/// Outcome view of a codec call: the message's view on success, the parse
/// error's text on failure.
pub open spec fn codec_result_v(r: Result<Option<Message>, Error>) -> Result<
    Option<MessageV>,
    Seq<char>,
> {
    match r {
        Ok(Some(m)) => Ok(Some(m.dv())),
        Ok(None) => Ok(None),
        Err(Error::MessageParse(s)) => Err(s@),
        Err(_) => Err(Seq::empty()),
    }
}

/// Clone an optional string, keeping its view.
pub fn clone_opt_string(o: &Option<String>) -> (r: Option<String>)
    ensures
        view_opt_str(r) == view_opt_str(*o),
{
    match o {
        Some(s) => Some(s.clone()),
        None => None,
    }
}

/// Clone an optional JSON value, keeping its view.
pub fn clone_opt_json(o: &Option<Json>) -> (r: Option<Json>)
    ensures
        view_opt_json(r) == view_opt_json(*o),
{
    match o {
        Some(j) => Some(j.clone()),
        None => None,
    }
}

impl Clone for ContentBlock {
    fn clone(&self) -> (r: Self)
        ensures
            r.dv() == self.dv(),
    {
        match self {
            ContentBlock::Text(b) => ContentBlock::Text(TextBlock { text: b.text.clone() }),
            ContentBlock::Thinking(b) => ContentBlock::Thinking(
                ThinkingBlock { thinking: b.thinking.clone(), signature: b.signature.clone() },
            ),
            ContentBlock::ToolUse(b) => ContentBlock::ToolUse(
                ToolUseBlock { id: b.id.clone(), name: b.name.clone(), input: b.input.clone() },
            ),
            ContentBlock::ToolResult(b) => ContentBlock::ToolResult(
                ToolResultBlock {
                    tool_use_id: b.tool_use_id.clone(),
                    content: clone_opt_json(&b.content),
                    is_error: if let Some(e) = b.is_error {
                        Some(e)
                    } else {
                        None
                    },
                },
            ),
        }
    }
}

/// Clone a block vector, keeping its view.
fn clone_blocks(blocks: &Vec<ContentBlock>) -> (r: Vec<ContentBlock>)
    ensures
        view_blocks(r@) == view_blocks(blocks@),
{
    let mut out: Vec<ContentBlock> = Vec::new();
    let n = blocks.len();
    let mut i: usize = 0;
    #[verifier::loop_isolation(false)]
    while i < n
        invariant
            i <= n,
            out@.len() == i,
            forall|j: int| 0 <= j < i ==> out@[j].dv() == blocks@[j].dv(),
        decreases n - i,
    {
        out.push(blocks[i].clone());
        i += 1;
    }
    proof {
        assert(view_blocks(out@) =~= view_blocks(blocks@));
    }
    out
}

impl Clone for Message {
    fn clone(&self) -> (r: Self)
        ensures
            r.dv() == self.dv(),
    {
        match self {
            Message::User(m) => Message::User(
                UserMessage {
                    content: match &m.content {
                        UserContent::Text(s) => UserContent::Text(s.clone()),
                        UserContent::Blocks(blocks) => UserContent::Blocks(clone_blocks(blocks)),
                    },
                    uuid: clone_opt_string(&m.uuid),
                    parent_tool_use_id: clone_opt_string(&m.parent_tool_use_id),
                    tool_use_result: clone_opt_json(&m.tool_use_result),
                },
            ),
            Message::Assistant(m) => Message::Assistant(
                AssistantMessage {
                    content: clone_blocks(&m.content),
                    model: m.model.clone(),
                    parent_tool_use_id: clone_opt_string(&m.parent_tool_use_id),
                    error: if let Some(e) = m.error {
                        Some(e)
                    } else {
                        None
                    },
                },
            ),
            Message::System(m) => Message::System(
                SystemMessage { subtype: m.subtype.clone(), data: m.data.clone() },
            ),
            Message::Result(m) => Message::Result(
                ResultMessage {
                    subtype: m.subtype.clone(),
                    duration_ms: m.duration_ms,
                    duration_api_ms: m.duration_api_ms,
                    is_error: m.is_error,
                    num_turns: m.num_turns,
                    session_id: m.session_id.clone(),
                    total_cost_usd: match &m.total_cost_usd {
                        Some(n) => Some(n.clone()),
                        None => None,
                    },
                    usage: clone_opt_json(&m.usage),
                    result: clone_opt_string(&m.result),
                    structured_output: clone_opt_json(&m.structured_output),
                },
            ),
            Message::StreamEvent(m) => Message::StreamEvent(
                StreamEvent {
                    uuid: m.uuid.clone(),
                    session_id: m.session_id.clone(),
                    event: m.event.clone(),
                    parent_tool_use_id: clone_opt_string(&m.parent_tool_use_id),
                },
            ),
        }
    }
}

} // verus!
