//! The canonical, vendor-agnostic representation of one unit of conversation.
//!
//! Tool-call arguments are carried as their JSON source text: the session core
//! never looks inside them, it only hands them to tools and providers.

use vstd::prelude::*;

verus! {

/// Mathematical model of a [`Message`]: the same shape over sequences of
/// characters.
pub enum MessageView {
    User { text: Seq<char> },
    Model { text: Seq<char> },
    ToolCall { id: Option<Seq<char>>, tool_name: Seq<char>, arguments: Seq<char> },
    ToolResult { id: Option<Seq<char>>, output: Seq<char>, is_error: bool },
}

/// One unit of conversation. `ToolCall` and `ToolResult` carry an optional
/// correlation id; every such message crossing a provider boundary must have
/// one, while transient internal values may omit it.
#[derive(Debug, Clone, PartialEq, Eq)]
pub enum Message {
    User(String),
    Model(String),
    ToolCall { id: Option<String>, tool_name: String, arguments: String },
    ToolResult { id: Option<String>, output: String, is_error: bool },
}

pub open spec fn view_opt_string(o: Option<String>) -> Option<Seq<char>> {
    match o {
        Option::Some(s) => Option::Some(s@),
        Option::None => Option::None,
    }
}

impl View for Message {
    type V = MessageView;

    open spec fn view(&self) -> MessageView {
        match self {
            Message::User(t) => MessageView::User { text: t@ },
            Message::Model(t) => MessageView::Model { text: t@ },
            Message::ToolCall { id, tool_name, arguments } => MessageView::ToolCall {
                id: view_opt_string(*id),
                tool_name: tool_name@,
                arguments: arguments@,
            },
            Message::ToolResult { id, output, is_error } => MessageView::ToolResult {
                id: view_opt_string(*id),
                output: output@,
                is_error: *is_error,
            },
        }
    }
}

impl MessageView {
    /// Whether this message is a model-issued tool call.
    pub open spec fn is_tool_call(self) -> bool {
        self is ToolCall
    }

    /// Whether the message may cross a provider boundary: tool calls and tool
    /// results must carry a correlation id there.
    pub open spec fn wire_ready(self) -> bool {
        match self {
            MessageView::ToolCall { id, .. } => id is Some,
            MessageView::ToolResult { id, .. } => id is Some,
            _ => true,
        }
    }
}

/// The views of a sequence of messages.
pub open spec fn views(s: Seq<Message>) -> Seq<MessageView> {
    s.map_values(|m: Message| m@)
}

/// An equal copy of an optional string.
pub fn clone_opt_string(o: &Option<String>) -> (r: Option<String>)
    ensures
        r == *o,
        view_opt_string(r) == view_opt_string(*o),
{
    match o {
        Option::Some(s) => Option::Some(s.clone()),
        Option::None => Option::None,
    }
}

impl Message {
    /// Whether this message is a model-issued tool call.
    pub fn is_tool_call(&self) -> (r: bool)
        ensures
            r == self@.is_tool_call(),
    {
        match self {
            Message::ToolCall { .. } => true,
            _ => false,
        }
    }

    /// An equal copy, usable from verified code.
    pub fn duplicate(&self) -> (r: Message)
        ensures
            r@ == self@,
    {
        match self {
            Message::User(t) => Message::User(t.clone()),
            Message::Model(t) => Message::Model(t.clone()),
            Message::ToolCall { id, tool_name, arguments } => Message::ToolCall {
                id: clone_opt_string(id),
                tool_name: tool_name.clone(),
                arguments: arguments.clone(),
            },
            Message::ToolResult { id, output, is_error } => Message::ToolResult {
                id: clone_opt_string(id),
                output: output.clone(),
                is_error: *is_error,
            },
        }
    }
}

/// Appending a message appends its view.
pub proof fn lemma_views_push(s: Seq<Message>, m: Message)
    ensures
        views(s.push(m)) == views(s).push(m@),
{
    assert(views(s.push(m)) =~= views(s).push(m@));
}

/// The messages of `s` that are not tool calls, in order.
pub open spec fn other_messages(s: Seq<MessageView>) -> Seq<MessageView>
    decreases s.len(),
{
    if s.len() == 0 {
        Seq::<MessageView>::empty()
    } else {
        let prev = other_messages(s.drop_last());
        if s.last() is ToolCall {
            prev
        } else {
            prev.push(s.last())
        }
    }
}

/// The tool calls of `s`, in order.
pub open spec fn tool_calls_of(s: Seq<MessageView>) -> Seq<MessageView>
    decreases s.len(),
{
    if s.len() == 0 {
        Seq::<MessageView>::empty()
    } else {
        let prev = tool_calls_of(s.drop_last());
        if s.last() is ToolCall {
            prev.push(s.last())
        } else {
            prev
        }
    }
}

} // verus!
