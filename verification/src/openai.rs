//! The OpenAI-compatible wire protocol: message types, the translation
//! between the canonical conversation model and the wire shape, and the
//! decoding of completion choices.
//!
//! Tool arguments travel as JSON text. The wire format has no error flag on
//! tool results: that flag is lost in this direction, by the vendor's
//! design. A tool call coming back from the model has its arguments text
//! checked as JSON; text that does not parse is a request failure.

use vstd::prelude::*;
use crate::errors::ModelError;
use crate::jsonutil::{json_ok, json_is_valid};
use crate::message::{Message as CanonicalMessage, MessageView as CanonicalView, views};
use crate::message::clone_opt_string;

verus! {

/// The role of a wire message's author.
#[derive(Debug, Clone, Copy, PartialEq, Eq, Structural)]
pub enum Role {
    System,
    User,
    Assistant,
    Tool,
}

/// Mathematical model of a [`FunctionCall`].
pub struct FunctionCallView {
    pub name: Seq<char>,
    pub arguments: Seq<char>,
}

/// The function a tool call invokes, with its arguments as JSON text.
#[derive(Debug, Clone, PartialEq, Eq)]
pub struct FunctionCall {
    pub name: String,
    pub arguments: String,
}

impl View for FunctionCall {
    type V = FunctionCallView;

    open spec fn view(&self) -> FunctionCallView {
        FunctionCallView { name: self.name@, arguments: self.arguments@ }
    }
}

/// Mathematical model of a [`ToolCall`].
pub struct ToolCallView {
    pub id: Seq<char>,
    pub call_type: Seq<char>,
    pub function: FunctionCallView,
}

/// One tool call carried in a wire message.
#[derive(Debug, Clone, PartialEq, Eq)]
pub struct ToolCall {
    pub id: String,
    pub call_type: String,
    pub function: FunctionCall,
}

impl View for ToolCall {
    type V = ToolCallView;

    open spec fn view(&self) -> ToolCallView {
        ToolCallView { id: self.id@, call_type: self.call_type@, function: self.function@ }
    }
}

/// Mathematical model of a wire [`Message`].
pub struct WireView {
    pub role: Role,
    pub content: Option<Seq<char>>,
    pub tool_calls: Option<Seq<ToolCallView>>,
    pub tool_call_id: Option<Seq<char>>,
}

/// One message of the wire conversation.
#[derive(Debug, Clone, PartialEq, Eq)]
pub struct Message {
    pub role: Role,
    pub content: Option<String>,
    pub tool_calls: Option<Vec<ToolCall>>,
    pub tool_call_id: Option<String>,
}

/// The view of an optional string.
pub open spec fn opt_view(o: Option<String>) -> Option<Seq<char>> {
    match o {
        Option::Some(s) => Option::Some(s@),
        Option::None => Option::None,
    }
}

/// The views of an optional tool-call list.
pub open spec fn opt_tool_call_views(o: Option<Vec<ToolCall>>) -> Option<Seq<ToolCallView>> {
    match o {
        Option::Some(v) => Option::Some(v@.map_values(|t: ToolCall| t@)),
        Option::None => Option::None,
    }
}

impl View for Message {
    type V = WireView;

    open spec fn view(&self) -> WireView {
        WireView {
            role: self.role,
            content: opt_view(self.content),
            tool_calls: opt_tool_call_views(self.tool_calls),
            tool_call_id: opt_view(self.tool_call_id),
        }
    }
}

/// A tool definition advertised to the vendor; the parameter schema is JSON
/// text, consumed opaquely and forwarded verbatim.
#[derive(Debug, Clone, PartialEq, Eq)]
pub struct Function {
    pub name: String,
    pub description: String,
    pub parameters: String,
}

/// A tool entry of the request body.
#[derive(Debug, Clone, PartialEq, Eq)]
pub struct Tool {
    pub tool_type: String,
    pub function: Function,
}

/// Which tool the model is steered towards.
#[derive(Debug, Clone, PartialEq, Eq)]
pub enum ToolChoice {
    Auto,
    NoTools,
    Required,
    Specific { function: FunctionChoice },
}

/// A specific function choice.
#[derive(Debug, Clone, PartialEq, Eq)]
pub struct FunctionChoice {
    pub name: String,
}

/// The request body for one chat completion call.
#[derive(Debug, Clone, PartialEq, Eq)]
pub struct ChatCompletionRequest {
    pub model: String,
    pub messages: Vec<Message>,
    pub tools: Option<Vec<Tool>>,
    pub tool_choice: Option<ToolChoice>,
    pub max_tokens: Option<u32>,
}

/// Token usage reported with a response.
#[derive(Debug, Clone, Copy, PartialEq, Eq, Structural)]
pub struct Usage {
    pub prompt_tokens: u32,
    pub completion_tokens: u32,
    pub total_tokens: u32,
}

/// Why one choice stopped generating.
#[derive(Debug, Clone, Copy, PartialEq, Eq, Structural)]
pub enum FinishReason {
    Stop,
    Length,
    ToolCalls,
    ContentFilter,
    FunctionCall,
}

/// Mathematical model of a [`Choice`].
pub struct ChoiceView {
    pub index: u32,
    pub message: WireView,
    pub finish_reason: Option<FinishReason>,
}

/// One choice of a completion response.
#[derive(Debug, Clone, PartialEq, Eq)]
pub struct Choice {
    pub index: u32,
    pub message: Message,
    pub finish_reason: Option<FinishReason>,
}

impl View for Choice {
    type V = ChoiceView;

    open spec fn view(&self) -> ChoiceView {
        ChoiceView {
            index: self.index,
            message: self.message@,
            finish_reason: self.finish_reason,
        }
    }
}

/// The response body of one chat completion call.
#[derive(Debug, Clone, PartialEq, Eq)]
pub struct ChatCompletionResponse {
    pub id: String,
    pub object: String,
    pub created: u64,
    pub model: String,
    pub choices: Vec<Choice>,
    pub usage: Usage,
}

/// Error payload of a vendor error response.
#[derive(Debug, Clone, PartialEq, Eq)]
pub struct ApiError {
    pub message: String,
    pub error_type: String,
    pub code: Option<String>,
}

/// Wrapper object in which the vendor returns an [`ApiError`].
#[derive(Debug, Clone, PartialEq, Eq)]
pub struct ErrorResponse {
    pub error: ApiError,
}

/// How one canonical message encodes to the wire. Tool calls and tool
/// results must carry an id. The wire format has no place for a tool
/// result's error flag: it is not transmitted.
pub open spec fn encode_spec(m: CanonicalView) -> Option<WireView> {
    match m {
        CanonicalView::User { text } => Option::Some(
            WireView {
                role: Role::User,
                content: Option::Some(text),
                tool_calls: Option::None,
                tool_call_id: Option::None,
            },
        ),
        CanonicalView::Model { text } => Option::Some(
            WireView {
                role: Role::Assistant,
                content: Option::Some(text),
                tool_calls: Option::None,
                tool_call_id: Option::None,
            },
        ),
        CanonicalView::ToolCall { id, tool_name, arguments } => match id {
            Option::Some(i) => Option::Some(
                WireView {
                    role: Role::Assistant,
                    content: Option::None,
                    tool_calls: Option::Some(
                        seq![
                            ToolCallView {
                                id: i,
                                call_type: "function"@,
                                function: FunctionCallView { name: tool_name, arguments },
                            },
                        ],
                    ),
                    tool_call_id: Option::None,
                },
            ),
            Option::None => Option::None,
        },
        CanonicalView::ToolResult { id, output, is_error: _ } => match id {
            Option::Some(i) => Option::Some(
                WireView {
                    role: Role::Tool,
                    content: Option::Some(output),
                    tool_calls: Option::None,
                    tool_call_id: Option::Some(i),
                },
            ),
            Option::None => Option::None,
        },
    }
}

/// The inverse reading of one wire message, where it has the shape the
/// encoding produces. A tool-role message reads back with the error flag
/// clear: the wire never carried it.
pub open spec fn decode_message_spec(w: WireView) -> Option<CanonicalView> {
    match w.role {
        Role::User => match (w.content, w.tool_calls, w.tool_call_id) {
            (Option::Some(text), Option::None, Option::None) => Option::Some(
                CanonicalView::User { text },
            ),
            _ => Option::None,
        },
        Role::Assistant => match (w.content, w.tool_calls, w.tool_call_id) {
            (Option::Some(text), Option::None, Option::None) => Option::Some(
                CanonicalView::Model { text },
            ),
            (Option::None, Option::Some(tcs), Option::None) => if tcs.len() == 1 {
                Option::Some(
                    CanonicalView::ToolCall {
                        id: Option::Some(tcs[0].id),
                        tool_name: tcs[0].function.name,
                        arguments: tcs[0].function.arguments,
                    },
                )
            } else {
                Option::None
            },
            _ => Option::None,
        },
        Role::Tool => match (w.content, w.tool_calls, w.tool_call_id) {
            (Option::Some(output), Option::None, Option::Some(i)) => Option::Some(
                CanonicalView::ToolResult { id: Option::Some(i), output, is_error: false },
            ),
            _ => Option::None,
        },
        Role::System => Option::None,
    }
}

/// Law: the wire encoding loses nothing but the error flag, which this wire
/// format cannot carry. A canonical message that carries the ids the wire
/// needs — and, for a tool result, does not rely on the flag — decodes from
/// its own encoding unchanged.
pub proof fn lemma_encode_round_trip(m: CanonicalView)
    requires
        m.wire_ready(),
        m matches CanonicalView::ToolResult { is_error, .. } ==> !is_error,
    ensures
        encode_spec(m) matches Some(w) && decode_message_spec(w) == Some(m),
{
}

/// Encodes one canonical message for the wire; fails with a `Request` error
/// exactly when a tool call or tool result carries no id.
pub fn encode_message(m: &CanonicalMessage) -> (r: Result<Message, ModelError>)
    ensures
        m@.wire_ready() <==> r is Ok,
        r matches Ok(w) ==> encode_spec(m@) == Some(w@),
        m@ is ToolCall && !m@.wire_ready() ==> (r matches Err(ModelError::Request { reason })
            && reason@ == "all tool calls are expected to have an id"@),
        m@ is ToolResult && !m@.wire_ready() ==> (r matches Err(ModelError::Request { reason })
            && reason@ == "all tool results are expected to have an id"@),
{
    match m {
        CanonicalMessage::User(text) => Result::Ok(
            Message {
                role: Role::User,
                content: Option::Some(text.clone()),
                tool_calls: Option::None,
                tool_call_id: Option::None,
            },
        ),
        CanonicalMessage::Model(text) => Result::Ok(
            Message {
                role: Role::Assistant,
                content: Option::Some(text.clone()),
                tool_calls: Option::None,
                tool_call_id: Option::None,
            },
        ),
        CanonicalMessage::ToolCall { id, tool_name, arguments } => match id {
            Option::Some(i) => {
                let tc = ToolCall {
                    id: i.clone(),
                    call_type: "function".to_owned(),
                    function: FunctionCall {
                        name: tool_name.clone(),
                        arguments: arguments.clone(),
                    },
                };
                let w = Message {
                    role: Role::Assistant,
                    content: Option::None,
                    tool_calls: Option::Some(vec![tc]),
                    tool_call_id: Option::None,
                };
                proof {
                    assert(w@.tool_calls matches Some(s) && s =~= seq![
                        ToolCallView {
                            id: i@,
                            call_type: "function"@,
                            function: FunctionCallView { name: tool_name@, arguments: arguments@ },
                        },
                    ]);
                }
                Result::Ok(w)
            },
            Option::None => Result::Err(
                ModelError::Request {
                    reason: "all tool calls are expected to have an id".to_owned(),
                },
            ),
        },
        CanonicalMessage::ToolResult { id, output, is_error: _ } => match id {
            Option::Some(i) => Result::Ok(
                Message {
                    role: Role::Tool,
                    content: Option::Some(output.clone()),
                    tool_calls: Option::None,
                    tool_call_id: Option::Some(i.clone()),
                },
            ),
            Option::None => Result::Err(
                ModelError::Request {
                    reason: "all tool results are expected to have an id".to_owned(),
                },
            ),
        },
    }
}

/// Decodes one wire message of the shape the encoding produces; the inverse
/// of [`encode_message`], with the error flag clear on tool results.
pub fn decode_message(w: &Message) -> (r: Result<CanonicalMessage, ModelError>)
    ensures
        r matches Ok(m) ==> decode_message_spec(w@) == Some(m@),
        r is Err ==> decode_message_spec(w@) is None,
{
    match w.role {
        Role::User => match (&w.content, &w.tool_calls, &w.tool_call_id) {
            (Option::Some(text), Option::None, Option::None) => Result::Ok(
                CanonicalMessage::User(text.clone()),
            ),
            _ => Result::Err(
                ModelError::Request { reason: "unexpected user message shape".to_owned() },
            ),
        },
        Role::Assistant => match (&w.content, &w.tool_calls, &w.tool_call_id) {
            (Option::Some(text), Option::None, Option::None) => Result::Ok(
                CanonicalMessage::Model(text.clone()),
            ),
            (Option::None, Option::Some(tcs), Option::None) => {
                if tcs.len() == 1 {
                    let tc = &tcs[0];
                    proof {
                        assert(w@.tool_calls matches Some(s) && s[0] == tc@);
                    }
                    Result::Ok(
                        CanonicalMessage::ToolCall {
                            id: Option::Some(tc.id.clone()),
                            tool_name: tc.function.name.clone(),
                            arguments: tc.function.arguments.clone(),
                        },
                    )
                } else {
                    Result::Err(
                        ModelError::Request {
                            reason: "expected exactly one tool call".to_owned(),
                        },
                    )
                }
            },
            _ => Result::Err(
                ModelError::Request { reason: "unexpected assistant message shape".to_owned() },
            ),
        },
        Role::Tool => match (&w.content, &w.tool_calls, &w.tool_call_id) {
            (Option::Some(output), Option::None, Option::Some(i)) => Result::Ok(
                CanonicalMessage::ToolResult {
                    id: Option::Some(i.clone()),
                    output: output.clone(),
                    is_error: false,
                },
            ),
            _ => Result::Err(
                ModelError::Request { reason: "unexpected tool message shape".to_owned() },
            ),
        },
        Role::System => Result::Err(
            ModelError::Request { reason: "unexpected system message".to_owned() },
        ),
    }
}

/// How the tool calls of one choice read, in order: each becomes a canonical
/// tool call, provided its arguments text parses as JSON.
pub open spec fn decode_tool_calls_spec(tcs: Seq<ToolCallView>) -> Option<Seq<CanonicalView>>
    decreases tcs.len(),
{
    if tcs.len() == 0 {
        Option::Some(Seq::<CanonicalView>::empty())
    } else {
        match decode_tool_calls_spec(tcs.drop_last()) {
            Option::None => Option::None,
            Option::Some(prev) => if json_ok(tcs.last().function.arguments) {
                Option::Some(
                    prev.push(
                        CanonicalView::ToolCall {
                            id: Option::Some(tcs.last().id),
                            tool_name: tcs.last().function.name,
                            arguments: tcs.last().function.arguments,
                        },
                    ),
                )
            } else {
                Option::None
            },
        }
    }
}

/// How one choice's message reads: its free text, if any, as the model
/// speaking, followed by its tool calls in order.
pub open spec fn choice_messages_spec(m: WireView) -> Option<Seq<CanonicalView>> {
    let from_text = match m.content {
        Option::Some(t) => seq![CanonicalView::Model { text: t }],
        Option::None => Seq::<CanonicalView>::empty(),
    };
    match m.tool_calls {
        Option::None => Option::Some(from_text),
        Option::Some(tcs) => match decode_tool_calls_spec(tcs) {
            Option::None => Option::None,
            Option::Some(calls) => Option::Some(from_text + calls),
        },
    }
}

/// How a whole response decodes: every choice in order, failing as soon as
/// one tool call's arguments text does not parse.
pub open spec fn decode_choices_spec(choices: Seq<ChoiceView>) -> Option<Seq<CanonicalView>>
    decreases choices.len(),
{
    if choices.len() == 0 {
        Option::Some(Seq::<CanonicalView>::empty())
    } else {
        match decode_choices_spec(choices.drop_last()) {
            Option::None => Option::None,
            Option::Some(prev) => match choice_messages_spec(choices.last().message) {
                Option::None => Option::None,
                Option::Some(ms) => Option::Some(prev + ms),
            },
        }
    }
}

/// The views of a vector of choices.
pub open spec fn choice_views(cs: Seq<Choice>) -> Seq<ChoiceView> {
    cs.map_values(|c: Choice| c@)
}

/// Decodes the choices of one completion response into canonical messages,
/// in order: a choice's free text becomes the model's words, and each of its
/// tool calls is re-read from its arguments text — text that does not parse
/// as JSON is a hard request failure.
#[verifier::loop_isolation(false)]
pub fn decode_choices(choices: &Vec<Choice>) -> (r: Result<Vec<CanonicalMessage>, ModelError>)
    ensures
        r matches Ok(ms) ==> decode_choices_spec(choice_views(choices@)) == Some(views(ms@)),
        r matches Err(e) ==> decode_choices_spec(choice_views(choices@)) is None && (
        e matches ModelError::Request { reason } && reason@
            == "invalid response from openai: Failed to parse tool arguments"@),
{
    let mut out: Vec<CanonicalMessage> = Vec::new();
    let mut i: usize = 0;
    proof {
        assert(choice_views(choices@.subrange(0, 0)) =~= Seq::<ChoiceView>::empty());
        assert(views(out@) =~= Seq::<CanonicalView>::empty());
    }
    while i < choices.len()
        invariant
            i <= choices@.len(),
            decode_choices_spec(choice_views(choices@.subrange(0, i as int))) == Some(views(out@)),
        decreases choices@.len() - i,
    {
        let ghost pre = choice_views(choices@.subrange(0, i as int));
        let ghost post = choice_views(choices@.subrange(0, i as int + 1));
        proof {
            assert(post =~= pre.push(choices@[i as int]@));
            assert(post.drop_last() =~= pre);
        }
        let message = &choices[i].message;
        let ghost mv = message@;
        let ghost before_choice = views(out@);
        match &message.content {
            Option::Some(text) => {
                let ghost opre = out@;
                out.push(CanonicalMessage::Model(text.clone()));
                proof {
                    crate::message::lemma_views_push(opre, out@.last());
                }
            },
            Option::None => {},
        }
        let ghost from_text = views(out@);
        match &message.tool_calls {
            Option::Some(tcs) => {
                let ghost tvs = tcs@.map_values(|t: ToolCall| t@);
                let mut k: usize = 0;
                proof {
                    assert(mv.tool_calls matches Some(t) && t =~= tvs);
                    assert(mv.tool_calls == Some(tvs));
                    assert(tvs.subrange(0, 0) =~= Seq::<ToolCallView>::empty());
                    assert(decode_tool_calls_spec(tvs.subrange(0, 0)) == Some(
                        Seq::<CanonicalView>::empty(),
                    ));
                    assert(from_text =~= from_text + Seq::<CanonicalView>::empty());
                }
                while k < tcs.len()
                    invariant
                        k <= tcs@.len(),
                        tvs == tcs@.map_values(|t: ToolCall| t@),
                        decode_tool_calls_spec(tvs.subrange(0, k as int)) matches Some(calls)
                            && views(out@) == from_text + calls,
                    decreases tcs@.len() - k,
                {
                    let ghost tpre = tvs.subrange(0, k as int);
                    let ghost tpost = tvs.subrange(0, k as int + 1);
                    proof {
                        assert(tpost =~= tpre.push(tvs[k as int]));
                        assert(tpost.drop_last() =~= tpre);
                    }
                    let tc = &tcs[k];
                    if json_is_valid(tc.function.arguments.as_str()) {
                        let ghost opre = out@;
                        out.push(
                            CanonicalMessage::ToolCall {
                                id: Option::Some(tc.id.clone()),
                                tool_name: tc.function.name.clone(),
                                arguments: tc.function.arguments.clone(),
                            },
                        );
                        proof {
                            crate::message::lemma_views_push(opre, out@.last());
                            assert(decode_tool_calls_spec(tpost) matches Some(calls)
                                && views(out@) =~= from_text + calls);
                        }
                        k = k + 1;
                    } else {
                        proof {
                            assert(decode_tool_calls_spec(tpost) is None);
                            lemma_decode_tool_calls_prefix_none(tvs, k as int + 1);
                            assert(decode_tool_calls_spec(tvs) is None);
                            assert(mv.tool_calls == Some(tvs));
                            assert(choice_messages_spec(mv) is None);
                            lemma_decode_choices_prefix_none(
                                choice_views(choices@),
                                i as int + 1,
                            );
                        }
                        return Result::Err(
                            ModelError::Request {
                                reason:
                                    "invalid response from openai: Failed to parse tool arguments".to_owned(),
                            },
                        );
                    }
                }
                proof {
                    assert(tvs.subrange(0, tvs.len() as int) =~= tvs);
                }
            },
            Option::None => {},
        }
        proof {
            assert(choice_messages_spec(mv) matches Some(ms) && views(out@) =~= before_choice
                + ms);
            assert(decode_choices_spec(post) == Some(views(out@)));
        }
        i = i + 1;
    }
    proof {
        assert(choices@.subrange(0, choices@.len() as int) =~= choices@);
    }
    Result::Ok(out)
}

/// Once a prefix of the tool calls fails to decode, the whole list fails.
proof fn lemma_decode_tool_calls_prefix_none(tcs: Seq<ToolCallView>, k: int)
    requires
        0 <= k <= tcs.len(),
        decode_tool_calls_spec(tcs.subrange(0, k)) is None,
    ensures
        decode_tool_calls_spec(tcs) is None,
    decreases tcs.len() - k,
{
    if k < tcs.len() {
        assert(tcs.subrange(0, k + 1).drop_last() =~= tcs.subrange(0, k));
        lemma_decode_tool_calls_prefix_none(tcs, k + 1);
    } else {
        assert(tcs.subrange(0, k) =~= tcs);
    }
}

/// Once a prefix of the choices fails to decode, the whole response fails.
proof fn lemma_decode_choices_prefix_none(choices: Seq<ChoiceView>, k: int)
    requires
        0 <= k <= choices.len(),
        decode_choices_spec(choices.subrange(0, k)) is None,
    ensures
        decode_choices_spec(choices) is None,
    decreases choices.len() - k,
{
    if k < choices.len() {
        assert(choices.subrange(0, k + 1).drop_last() =~= choices.subrange(0, k));
        lemma_decode_choices_prefix_none(choices, k + 1);
    } else {
        assert(choices.subrange(0, k) =~= choices);
    }
}

/// How a list of canonical messages encodes, in order, failing as soon as
/// one message cannot cross the wire.
pub open spec fn encode_all_spec(ms: Seq<CanonicalView>) -> Option<Seq<WireView>>
    decreases ms.len(),
{
    if ms.len() == 0 {
        Option::Some(Seq::<WireView>::empty())
    } else {
        match encode_all_spec(ms.drop_last()) {
            Option::None => Option::None,
            Option::Some(prev) => match encode_spec(ms.last()) {
                Option::None => Option::None,
                Option::Some(w) => Option::Some(prev.push(w)),
            },
        }
    }
}

/// The views of a vector of wire messages.
pub open spec fn wire_views(ms: Seq<Message>) -> Seq<WireView> {
    ms.map_values(|m: Message| m@)
}

/// Builds the full ordered wire message list for one request: the history
/// followed by the message being sent.
pub fn encode_messages(history: &Vec<CanonicalMessage>, current: &CanonicalMessage) -> (r: Result<
    Vec<Message>,
    ModelError,
>)
    ensures
        r matches Ok(ws) ==> encode_all_spec(views(history@).push(current@)) == Some(
            wire_views(ws@),
        ),
        r matches Err(e) ==> e is Request && encode_all_spec(views(history@).push(current@))
            is None,
{
    let ghost all = views(history@).push(current@);
    let mut out: Vec<Message> = Vec::new();
    let mut i: usize = 0;
    proof {
        assert(all.subrange(0, 0) =~= Seq::<CanonicalView>::empty());
        assert(wire_views(out@) =~= Seq::<WireView>::empty());
    }
    while i < history.len()
        invariant
            i <= history@.len(),
            all == views(history@).push(current@),
            all.len() == history@.len() + 1,
            forall|j: int| 0 <= j < history@.len() ==> all[j] == history@[j]@,
            encode_all_spec(all.subrange(0, i as int)) == Some(wire_views(out@)),
        decreases history@.len() - i,
    {
        let ghost opre = out@;
        proof {
            assert(all.subrange(0, i as int + 1).drop_last() =~= all.subrange(0, i as int));
            assert(all.subrange(0, i as int + 1).last() == history@[i as int]@);
        }
        match encode_message(&history[i]) {
            Result::Ok(w) => {
                out.push(w);
                proof {
                    assert(wire_views(out@) =~= wire_views(opre).push(out@.last()@));
                }
            },
            Result::Err(e) => {
                proof {
                    lemma_encode_all_prefix_none(all, i as int + 1);
                }
                return Result::Err(e);
            },
        }
        i = i + 1;
    }
    let ghost opre = out@;
    proof {
        assert(all.subrange(0, all.len() as int) =~= all);
        assert(all.drop_last() =~= all.subrange(0, history@.len() as int));
        assert(all.last() == current@);
    }
    match encode_message(current) {
        Result::Ok(w) => {
            out.push(w);
            proof {
                assert(wire_views(out@) =~= wire_views(opre).push(out@.last()@));
            }
            Result::Ok(out)
        },
        Result::Err(e) => Result::Err(e),
    }
}

/// Once a prefix fails to encode, the whole list fails.
proof fn lemma_encode_all_prefix_none(ms: Seq<CanonicalView>, k: int)
    requires
        0 <= k <= ms.len(),
        encode_all_spec(ms.subrange(0, k)) is None,
    ensures
        encode_all_spec(ms) is None,
    decreases ms.len() - k,
{
    if k < ms.len() {
        assert(ms.subrange(0, k + 1).drop_last() =~= ms.subrange(0, k));
        lemma_encode_all_prefix_none(ms, k + 1);
    } else {
        assert(ms.subrange(0, k) =~= ms);
    }
}

/// The provider configuration an OpenAI-compatible adapter holds. The HTTP
/// client itself lives with the surrounding application.
pub struct OpenAIModel {
    pub api_key: String,
    pub base_url: String,
    pub model_name: String,
    pub max_tokens: Option<u32>,
    pub tools: Option<Vec<Tool>>,
}

impl OpenAIModel {
    /// Configures an adapter; without an override the vendor's public
    /// endpoint is used.
    pub fn new(
        api_key: String,
        model_name: String,
        max_tokens: Option<u32>,
        tools: Option<Vec<Tool>>,
        base_url: Option<String>,
    ) -> (r: Self)
        ensures
            r.api_key == api_key,
            r.model_name == model_name,
            r.max_tokens == max_tokens,
            r.tools == tools,
            match base_url {
                Option::Some(u) => r.base_url == u,
                Option::None => r.base_url@ == "https://api.openai.com/v1"@,
            },
    {
        let base_url = match base_url {
            Option::Some(u) => u,
            Option::None => "https://api.openai.com/v1".to_owned(),
        };
        OpenAIModel { api_key, base_url, model_name, max_tokens, tools }
    }

    /// Builds the request body for one chat completion call over the given
    /// wire message list.
    pub fn build_request(&self, messages: Vec<Message>) -> (r: ChatCompletionRequest)
        ensures
            r.model == self.model_name,
            r.messages == messages,
            tool_views_opt(r.tools) == tool_views_opt(self.tools),
            r.tool_choice is None,
            r.max_tokens == self.max_tokens,
    {
        ChatCompletionRequest {
            model: self.model_name.clone(),
            messages,
            tools: clone_tools_opt(&self.tools),
            tool_choice: Option::None,
            max_tokens: clone_opt_u32(&self.max_tokens),
        }
    }
}

/// The tool list of an optional tool vector, as a sequence.
pub open spec fn tool_views_opt(o: Option<Vec<Tool>>) -> Option<Seq<Tool>> {
    match o {
        Option::Some(v) => Option::Some(v@),
        Option::None => Option::None,
    }
}

fn clone_opt_u32(o: &Option<u32>) -> (r: Option<u32>)
    ensures
        r == *o,
{
    match o {
        Option::Some(n) => Option::Some(*n),
        Option::None => Option::None,
    }
}

fn clone_tools_opt(tools: &Option<Vec<Tool>>) -> (r: Option<Vec<Tool>>)
    ensures
        tool_views_opt(r) == tool_views_opt(*tools),
{
    match tools {
        Option::None => Option::None,
        Option::Some(ts) => {
            let mut out: Vec<Tool> = Vec::new();
            let mut i: usize = 0;
            while i < ts.len()
                invariant
                    i <= ts@.len(),
                    out@ == ts@.subrange(0, i as int),
                decreases ts@.len() - i,
            {
                let t = &ts[i];
                out.push(
                    Tool {
                        tool_type: t.tool_type.clone(),
                        function: Function {
                            name: t.function.name.clone(),
                            description: t.function.description.clone(),
                            parameters: t.function.parameters.clone(),
                        },
                    },
                );
                i = i + 1;
                proof {
                    assert(out@ =~= ts@.subrange(0, i as int));
                }
            }
            proof {
                assert(out@ =~= ts@);
            }
            Option::Some(out)
        },
    }
}

} // verus!
