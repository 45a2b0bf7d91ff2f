//! The Anthropic-style wire protocol: message types, the translation between
//! the canonical conversation model and the wire shape, and the decoding of
//! response content blocks.
//!
//! Tool inputs and schemas are carried as their JSON source text; the
//! surrounding application serializes these structures into the request body
//! and parses response bodies back into them.

use vstd::prelude::*;
use crate::errors::ModelError;
use crate::message::{Message as CanonicalMessage, MessageView as CanonicalView, views};
use crate::message::clone_opt_string;

verus! {

/// The role of a wire message's author.
#[derive(Debug, Clone, Copy, PartialEq, Eq, Structural)]
pub enum Role {
    User,
    Assistant,
}

/// Image payload of an image content block.
#[derive(Debug, Clone, PartialEq, Eq)]
pub enum ImageSource {
    Base64 { media_type: String, data: String },
}

/// Document payload of a document content block.
#[derive(Debug, Clone, PartialEq, Eq)]
pub enum DocumentSource {
    Base64 { media_type: String, data: String },
    Text { text: String },
    File { file_id: String },
    Url { url: String },
}

/// One content block of a wire message. The conversation core reads only
/// `Text`, `ToolUse` and `ToolResult`; every other kind is carried for
/// completeness and rejected as unsupported when it comes back from the
/// model.
#[derive(Debug, PartialEq, Eq)]
pub enum ContentBlock {
    Text { text: String },
    Image { source: ImageSource },
    Document { source: DocumentSource, context: Option<String> },
    ToolUse { id: String, name: String, input: String },
    ToolResult { tool_use_id: String, content: String, is_error: Option<bool> },
    Thinking { thinking: String, signature: String },
    RedactedThinking { thinking: String, signature: String },
    SearchResult { title: String, source: String, content: Vec<ContentBlock> },
    ServerToolUse { id: String, name: String, input: String },
    WebSearchToolResult { tool_use_id: String, content: String, is_error: Option<bool> },
    CodeExecutionToolResult { tool_use_id: String, content: String, is_error: Option<bool> },
    McpToolUse { id: String, name: String, input: String },
    McpToolResult { tool_use_id: String, content: String, is_error: Option<bool> },
    ContainerUpload { file_id: String },
}

/// Mathematical model of a [`ContentBlock`]: exactly the kinds the codec
/// reads, with everything else collapsed into `Other`.
pub enum ContentBlockView {
    Text { text: Seq<char> },
    ToolUse { id: Seq<char>, name: Seq<char>, input: Seq<char> },
    ToolResult { tool_use_id: Seq<char>, content: Seq<char>, is_error: Option<bool> },
    Other,
}

impl View for ContentBlock {
    type V = ContentBlockView;

    open spec fn view(&self) -> ContentBlockView {
        match self {
            ContentBlock::Text { text } => ContentBlockView::Text { text: text@ },
            ContentBlock::ToolUse { id, name, input } => ContentBlockView::ToolUse {
                id: id@,
                name: name@,
                input: input@,
            },
            ContentBlock::ToolResult { tool_use_id, content, is_error } => (
            ContentBlockView::ToolResult {
                tool_use_id: tool_use_id@,
                content: content@,
                is_error: *is_error,
            }),
            _ => ContentBlockView::Other,
        }
    }
}

/// Mathematical model of a wire [`Message`].
pub struct WireView {
    pub role: Role,
    pub content: Seq<ContentBlockView>,
}

/// One message of the wire conversation: a role and its content blocks.
#[derive(Debug, PartialEq, Eq)]
pub struct Message {
    pub role: Role,
    pub content: Vec<ContentBlock>,
}

impl View for Message {
    type V = WireView;

    open spec fn view(&self) -> WireView {
        WireView { role: self.role, content: self.content@.map_values(|b: ContentBlock| b@) }
    }
}

/// A tool definition advertised to the vendor; the schema is JSON text,
/// consumed opaquely and forwarded verbatim.
#[derive(Debug, Clone, PartialEq, Eq)]
pub struct Tool {
    pub name: String,
    pub description: String,
    pub input_schema: String,
}

/// The request body for one model call.
#[derive(Debug, PartialEq, Eq)]
pub struct CreateMessageRequest {
    pub model: String,
    pub max_tokens: u32,
    pub messages: Vec<Message>,
    pub system: Option<String>,
    pub tools: Option<Vec<Tool>>,
}

/// Token usage reported with a response.
#[derive(Debug, Clone, Copy, PartialEq, Eq, Structural)]
pub struct Usage {
    pub input_tokens: u32,
    pub output_tokens: u32,
}

/// Why the model stopped generating.
#[derive(Debug, Clone, Copy, PartialEq, Eq, Structural)]
pub enum StopReason {
    EndTurn,
    MaxTokens,
    StopSequence,
    ToolUse,
}

/// The response body of one model call.
#[derive(Debug, PartialEq, Eq)]
pub struct CreateMessageResponse {
    pub id: String,
    pub message_type: String,
    pub role: Role,
    pub content: Vec<ContentBlock>,
    pub model: String,
    pub stop_reason: Option<StopReason>,
    pub stop_sequence: Option<String>,
    pub usage: Usage,
}

/// Error payload of a vendor error response.
#[derive(Debug, Clone, PartialEq, Eq)]
pub struct ApiError {
    pub error_type: String,
    pub message: String,
}

/// Wrapper object in which the vendor returns an [`ApiError`].
#[derive(Debug, Clone, PartialEq, Eq)]
pub struct ErrorResponse {
    pub error: ApiError,
}

/// How one canonical message encodes to the wire: a single content block
/// under the role the vendor expects. Tool calls and tool results must carry
/// an id; without one there is nothing to correlate, and encoding fails.
pub open spec fn encode_spec(m: CanonicalView) -> Option<WireView> {
    match m {
        CanonicalView::User { text } => Option::Some(
            WireView { role: Role::User, content: seq![ContentBlockView::Text { text }] },
        ),
        CanonicalView::Model { text } => Option::Some(
            WireView { role: Role::Assistant, content: seq![ContentBlockView::Text { text }] },
        ),
        CanonicalView::ToolCall { id, tool_name, arguments } => match id {
            Option::Some(i) => Option::Some(
                WireView {
                    role: Role::Assistant,
                    content: seq![
                        ContentBlockView::ToolUse { id: i, name: tool_name, input: arguments },
                    ],
                },
            ),
            Option::None => Option::None,
        },
        CanonicalView::ToolResult { id, output, is_error } => match id {
            Option::Some(i) => Option::Some(
                WireView {
                    role: Role::User,
                    content: seq![
                        ContentBlockView::ToolResult {
                            tool_use_id: i,
                            content: output,
                            is_error: Option::Some(is_error),
                        },
                    ],
                },
            ),
            Option::None => Option::None,
        },
    }
}

/// The inverse reading of one wire message, where it has the shape the
/// encoding produces.
pub open spec fn decode_message_spec(w: WireView) -> Option<CanonicalView> {
    if w.content.len() != 1 {
        Option::None
    } else {
        match w.content[0] {
            ContentBlockView::Text { text } => match w.role {
                Role::User => Option::Some(CanonicalView::User { text }),
                Role::Assistant => Option::Some(CanonicalView::Model { text }),
            },
            ContentBlockView::ToolUse { id, name, input } => if w.role is Assistant {
                Option::Some(
                    CanonicalView::ToolCall {
                        id: Option::Some(id),
                        tool_name: name,
                        arguments: input,
                    },
                )
            } else {
                Option::None
            },
            ContentBlockView::ToolResult { tool_use_id, content, is_error } => if w.role is User {
                Option::Some(
                    CanonicalView::ToolResult {
                        id: Option::Some(tool_use_id),
                        output: content,
                        is_error: is_error == Option::Some(true),
                    },
                )
            } else {
                Option::None
            },
            ContentBlockView::Other => Option::None,
        }
    }
}

/// Law: the wire encoding loses nothing. A canonical message that carries
/// the ids the wire needs decodes from its own encoding unchanged — text,
/// tool name, arguments, result payload and error flag included.
pub proof fn lemma_encode_round_trip(m: CanonicalView)
    requires
        m.wire_ready(),
    ensures
        encode_spec(m) matches Some(w) && decode_message_spec(w) == Some(m),
{
}

/// Encodes one canonical message for the wire; fails with a `Request` error
/// exactly when a tool call or tool result carries no id.
pub fn encode_message(m: &CanonicalMessage) -> (r: Result<Message, ModelError>)
    ensures
        m@.wire_ready() <==> r is Ok,
        r matches Ok(w) ==> encode_spec(m@) == Some(w@),
        m@ is ToolCall && !m@.wire_ready() ==> (r matches Err(ModelError::Request { reason })
            && reason@ == "all tool calls are expected to have an id"@),
        m@ is ToolResult && !m@.wire_ready() ==> (r matches Err(ModelError::Request { reason })
            && reason@ == "all tool results are expected to have an id"@),
{
    match m {
        CanonicalMessage::User(text) => {
            let blocks = vec![ContentBlock::Text { text: text.clone() }];
            let w = Message { role: Role::User, content: blocks };
            proof {
                assert(w@.content =~= seq![ContentBlockView::Text { text: text@ }]);
            }
            Result::Ok(w)
        },
        CanonicalMessage::Model(text) => {
            let blocks = vec![ContentBlock::Text { text: text.clone() }];
            let w = Message { role: Role::Assistant, content: blocks };
            proof {
                assert(w@.content =~= seq![ContentBlockView::Text { text: text@ }]);
            }
            Result::Ok(w)
        },
        CanonicalMessage::ToolCall { id, tool_name, arguments } => match id {
            Option::Some(i) => {
                let blocks = vec![
                    ContentBlock::ToolUse {
                        id: i.clone(),
                        name: tool_name.clone(),
                        input: arguments.clone(),
                    },
                ];
                let w = Message { role: Role::Assistant, content: blocks };
                proof {
                    assert(w@.content =~= seq![
                        ContentBlockView::ToolUse {
                            id: i@,
                            name: tool_name@,
                            input: arguments@,
                        },
                    ]);
                }
                Result::Ok(w)
            },
            Option::None => Result::Err(
                ModelError::Request {
                    reason: "all tool calls are expected to have an id".to_owned(),
                },
            ),
        },
        CanonicalMessage::ToolResult { id, output, is_error } => match id {
            Option::Some(i) => {
                let blocks = vec![
                    ContentBlock::ToolResult {
                        tool_use_id: i.clone(),
                        content: output.clone(),
                        is_error: Option::Some(*is_error),
                    },
                ];
                let w = Message { role: Role::User, content: blocks };
                proof {
                    assert(w@.content =~= seq![
                        ContentBlockView::ToolResult {
                            tool_use_id: i@,
                            content: output@,
                            is_error: Option::Some(*is_error),
                        },
                    ]);
                }
                Result::Ok(w)
            },
            Option::None => Result::Err(
                ModelError::Request {
                    reason: "all tool results are expected to have an id".to_owned(),
                },
            ),
        },
    }
}

/// Decodes one wire message of the shape the encoding produces; the inverse
/// of [`encode_message`].
pub fn decode_message(w: &Message) -> (r: Result<CanonicalMessage, ModelError>)
    ensures
        r matches Ok(m) ==> decode_message_spec(w@) == Some(m@),
        r is Err ==> decode_message_spec(w@) is None,
{
    if w.content.len() != 1 {
        return Result::Err(
            ModelError::Request { reason: "expected exactly one content block".to_owned() },
        );
    }
    let block = &w.content[0];
    proof {
        assert(w@.content[0] == block@);
    }
    match block {
        ContentBlock::Text { text } => match w.role {
            Role::User => Result::Ok(CanonicalMessage::User(text.clone())),
            Role::Assistant => Result::Ok(CanonicalMessage::Model(text.clone())),
        },
        ContentBlock::ToolUse { id, name, input } => match w.role {
            Role::Assistant => Result::Ok(
                CanonicalMessage::ToolCall {
                    id: Option::Some(id.clone()),
                    tool_name: name.clone(),
                    arguments: input.clone(),
                },
            ),
            Role::User => Result::Err(
                ModelError::Request { reason: "unexpected role for tool use".to_owned() },
            ),
        },
        ContentBlock::ToolResult { tool_use_id, content, is_error } => match w.role {
            Role::User => {
                let flag = match is_error {
                    Option::Some(b) => *b,
                    Option::None => false,
                };
                Result::Ok(
                    CanonicalMessage::ToolResult {
                        id: Option::Some(tool_use_id.clone()),
                        output: content.clone(),
                        is_error: flag,
                    },
                )
            },
            Role::Assistant => Result::Err(
                ModelError::Request { reason: "unexpected role for tool result".to_owned() },
            ),
        },
        _ => Result::Err(
            ModelError::Request { reason: "unsupported content block".to_owned() },
        ),
    }
}

/// How one response content block reads as a canonical message: free text is
/// the model speaking, a tool-use block is a tool call, and any other kind
/// is unsupported by design.
pub open spec fn block_message_spec(b: ContentBlockView) -> Option<CanonicalView> {
    match b {
        ContentBlockView::Text { text } => Option::Some(CanonicalView::Model { text }),
        ContentBlockView::ToolUse { id, name, input } => Option::Some(
            CanonicalView::ToolCall {
                id: Option::Some(id),
                tool_name: name,
                arguments: input,
            },
        ),
        _ => Option::None,
    }
}

/// How a whole response decodes: every block in order, failing as soon as
/// one block is of an unsupported kind.
pub open spec fn decode_blocks_spec(blocks: Seq<ContentBlockView>) -> Option<Seq<CanonicalView>>
    decreases blocks.len(),
{
    if blocks.len() == 0 {
        Option::Some(Seq::<CanonicalView>::empty())
    } else {
        match decode_blocks_spec(blocks.drop_last()) {
            Option::None => Option::None,
            Option::Some(prev) => match block_message_spec(blocks.last()) {
                Option::None => Option::None,
                Option::Some(m) => Option::Some(prev.push(m)),
            },
        }
    }
}

/// The views of a vector of content blocks.
pub open spec fn block_views(blocks: Seq<ContentBlock>) -> Seq<ContentBlockView> {
    blocks.map_values(|b: ContentBlock| b@)
}

/// Decodes the content blocks of one response into canonical messages, in
/// order: text becomes the model's words, tool-use blocks become tool calls,
/// and any other content kind is a hard request failure — unsupported vendor
/// content is not handled, by design.
pub fn decode_response_blocks(blocks: &Vec<ContentBlock>) -> (r: Result<
    Vec<CanonicalMessage>,
    ModelError,
>)
    ensures
        r matches Ok(ms) ==> decode_blocks_spec(block_views(blocks@)) == Some(views(ms@)),
        r matches Err(e) ==> decode_blocks_spec(block_views(blocks@)) is None && (
        e matches ModelError::Request { reason } && reason@
            == "invalid response from anthropic: Only Text and ToolUse blocks are supported"@),
{
    let mut out: Vec<CanonicalMessage> = Vec::new();
    let mut i: usize = 0;
    proof {
        assert(block_views(blocks@.subrange(0, 0)) =~= Seq::<ContentBlockView>::empty());
        assert(views(out@) =~= Seq::<CanonicalView>::empty());
    }
    while i < blocks.len()
        invariant
            i <= blocks@.len(),
            decode_blocks_spec(block_views(blocks@.subrange(0, i as int))) == Some(views(out@)),
        decreases blocks@.len() - i,
    {
        let ghost pre = block_views(blocks@.subrange(0, i as int));
        let ghost post = block_views(blocks@.subrange(0, i as int + 1));
        proof {
            assert(post =~= pre.push(blocks@[i as int]@));
            assert(post.drop_last() =~= pre);
        }
        let ghost opre = out@;
        let block = &blocks[i];
        match block {
            ContentBlock::Text { text } => {
                out.push(CanonicalMessage::Model(text.clone()));
            },
            ContentBlock::ToolUse { id, name, input } => {
                out.push(
                    CanonicalMessage::ToolCall {
                        id: Option::Some(id.clone()),
                        tool_name: name.clone(),
                        arguments: input.clone(),
                    },
                );
            },
            _ => {
                proof {
                    assert(block_message_spec(post.last()) is None);
                    lemma_decode_blocks_prefix_none(block_views(blocks@), i as int + 1);
                }
                return Result::Err(
                    ModelError::Request {
                        reason:
                            "invalid response from anthropic: Only Text and ToolUse blocks are supported".to_owned(),
                    },
                );
            },
        }
        proof {
            crate::message::lemma_views_push(opre, out@.last());
            assert(views(out@) =~= views(opre).push(out@.last()@));
        }
        i = i + 1;
    }
    proof {
        assert(blocks@.subrange(0, blocks@.len() as int) =~= blocks@);
    }
    Result::Ok(out)
}

/// Once a prefix fails to decode, the whole block list fails.
proof fn lemma_decode_blocks_prefix_none(blocks: Seq<ContentBlockView>, k: int)
    requires
        0 <= k <= blocks.len(),
        decode_blocks_spec(blocks.subrange(0, k)) is None,
    ensures
        decode_blocks_spec(blocks) is None,
    decreases blocks.len() - k,
{
    if k < blocks.len() {
        assert(blocks.subrange(0, k + 1).drop_last() =~= blocks.subrange(0, k));
        lemma_decode_blocks_prefix_none(blocks, k + 1);
    } else {
        assert(blocks.subrange(0, k) =~= blocks);
    }
}

/// How a list of canonical messages encodes, in order, failing as soon as
/// one message cannot cross the wire.
pub open spec fn encode_all_spec(ms: Seq<CanonicalView>) -> Option<Seq<WireView>>
    decreases ms.len(),
{
    if ms.len() == 0 {
        Option::Some(Seq::<WireView>::empty())
    } else {
        match encode_all_spec(ms.drop_last()) {
            Option::None => Option::None,
            Option::Some(prev) => match encode_spec(ms.last()) {
                Option::None => Option::None,
                Option::Some(w) => Option::Some(prev.push(w)),
            },
        }
    }
}

/// The views of a vector of wire messages.
pub open spec fn wire_views(ms: Seq<Message>) -> Seq<WireView> {
    ms.map_values(|m: Message| m@)
}

/// Builds the full ordered wire message list for one request: the history
/// followed by the message being sent.
pub fn encode_messages(history: &Vec<CanonicalMessage>, current: &CanonicalMessage) -> (r: Result<
    Vec<Message>,
    ModelError,
>)
    ensures
        r matches Ok(ws) ==> encode_all_spec(views(history@).push(current@)) == Some(
            wire_views(ws@),
        ),
        r matches Err(e) ==> e is Request && encode_all_spec(views(history@).push(current@))
            is None,
{
    let ghost all = views(history@).push(current@);
    let mut out: Vec<Message> = Vec::new();
    let mut i: usize = 0;
    proof {
        assert(all.subrange(0, 0) =~= Seq::<CanonicalView>::empty());
        assert(encode_all_spec(all.subrange(0, 0)) == Some(Seq::<WireView>::empty()));
        assert(wire_views(out@) =~= Seq::<WireView>::empty());
    }
    while i < history.len()
        invariant
            i <= history@.len(),
            all == views(history@).push(current@),
            all.len() == history@.len() + 1,
            forall|j: int| 0 <= j < history@.len() ==> all[j] == history@[j]@,
            encode_all_spec(all.subrange(0, i as int)) == Some(wire_views(out@)),
        decreases history@.len() - i,
    {
        let ghost opre = out@;
        proof {
            assert(all.subrange(0, i as int + 1).drop_last() =~= all.subrange(0, i as int));
            assert(all.subrange(0, i as int + 1).last() == history@[i as int]@);
        }
        match encode_message(&history[i]) {
            Result::Ok(w) => {
                out.push(w);
                proof {
                    assert(wire_views(out@) =~= wire_views(opre).push(out@.last()@));
                }
            },
            Result::Err(e) => {
                proof {
                    lemma_encode_all_prefix_none(all, i as int + 1);
                }
                return Result::Err(e);
            },
        }
        i = i + 1;
    }
    let ghost opre = out@;
    proof {
        assert(all.subrange(0, all.len() as int) =~= all);
        assert(all.subrange(0, all.len() as int).drop_last() =~= all.subrange(
            0,
            history@.len() as int,
        ));
        assert(all.last() == current@);
    }
    match encode_message(current) {
        Result::Ok(w) => {
            out.push(w);
            proof {
                assert(wire_views(out@) =~= wire_views(opre).push(out@.last()@));
                assert(all.subrange(0, history@.len() as int) =~= all.drop_last());
            }
            Result::Ok(out)
        },
        Result::Err(e) => {
            proof {
                assert(all.subrange(0, history@.len() as int) =~= all.drop_last());
            }
            Result::Err(e)
        },
    }
}

/// Once a prefix fails to encode, the whole list fails.
proof fn lemma_encode_all_prefix_none(ms: Seq<CanonicalView>, k: int)
    requires
        0 <= k <= ms.len(),
        encode_all_spec(ms.subrange(0, k)) is None,
    ensures
        encode_all_spec(ms) is None,
    decreases ms.len() - k,
{
    if k < ms.len() {
        assert(ms.subrange(0, k + 1).drop_last() =~= ms.subrange(0, k));
        lemma_encode_all_prefix_none(ms, k + 1);
    } else {
        assert(ms.subrange(0, k) =~= ms);
    }
}

/// The provider configuration an Anthropic-style adapter holds: credentials,
/// endpoint, model name, token budget, system prompt and advertised tools.
/// The HTTP client itself lives with the surrounding application.
pub struct AnthropicModel {
    pub api_key: String,
    pub base_url: String,
    pub model_name: String,
    pub max_tokens: u32,
    pub system_prompt: Option<String>,
    pub tools: Option<Vec<Tool>>,
}

impl AnthropicModel {
    /// Configures an adapter; without an override the vendor's public
    /// endpoint is used.
    pub fn new(
        api_key: String,
        model_name: String,
        max_tokens: u32,
        system_prompt: Option<String>,
        tools: Option<Vec<Tool>>,
        base_url: Option<String>,
    ) -> (r: Self)
        ensures
            r.api_key == api_key,
            r.model_name == model_name,
            r.max_tokens == max_tokens,
            r.system_prompt == system_prompt,
            r.tools == tools,
            match base_url {
                Option::Some(u) => r.base_url == u,
                Option::None => r.base_url@ == "https://api.anthropic.com/v1"@,
            },
    {
        let base_url = match base_url {
            Option::Some(u) => u,
            Option::None => "https://api.anthropic.com/v1".to_owned(),
        };
        AnthropicModel { api_key, base_url, model_name, max_tokens, system_prompt, tools }
    }

    /// Builds the request body for one model call over the given wire
    /// message list.
    pub fn build_request(&self, messages: Vec<Message>) -> (r: CreateMessageRequest)
        ensures
            r.model == self.model_name,
            r.max_tokens == self.max_tokens,
            r.messages == messages,
            r.system == self.system_prompt,
            tool_views_opt(r.tools) == tool_views_opt(self.tools),
    {
        CreateMessageRequest {
            model: self.model_name.clone(),
            max_tokens: self.max_tokens,
            messages,
            system: clone_opt_string(&self.system_prompt),
            tools: clone_tools_opt(&self.tools),
        }
    }
}

/// The tool list of an optional tool vector, as a sequence.
pub open spec fn tool_views_opt(o: Option<Vec<Tool>>) -> Option<Seq<Tool>> {
    match o {
        Option::Some(v) => Option::Some(v@),
        Option::None => Option::None,
    }
}

fn clone_tools_opt(tools: &Option<Vec<Tool>>) -> (r: Option<Vec<Tool>>)
    ensures
        tool_views_opt(r) == tool_views_opt(*tools),
{
    match tools {
        Option::None => Option::None,
        Option::Some(ts) => {
            let mut out: Vec<Tool> = Vec::new();
            let mut i: usize = 0;
            while i < ts.len()
                invariant
                    i <= ts@.len(),
                    out@ == ts@.subrange(0, i as int),
                decreases ts@.len() - i,
            {
                let t = &ts[i];
                out.push(
                    Tool {
                        name: t.name.clone(),
                        description: t.description.clone(),
                        input_schema: t.input_schema.clone(),
                    },
                );
                i = i + 1;
                proof {
                    assert(out@ =~= ts@.subrange(0, i as int));
                }
            }
            proof {
                assert(out@ =~= ts@);
            }
            Option::Some(out)
        },
    }
}

} // verus!
