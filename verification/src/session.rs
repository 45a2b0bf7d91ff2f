//! The session turn loop and its batch state machine.
//!
//! A turn runs until the model returns a response with no tool calls, or a
//! call in a batch is denied. The session owns the append-only message
//! history and the permission record; everything that suspends (the model's
//! network round trip, a tool's execution, the operator's answer to a prompt)
//! is performed by the caller, which feeds the outcome back into these
//! functions. The contracts pin down exactly what enters the history and in
//! what order: nothing committed is ever reordered or dropped.

use vstd::prelude::*;
use crate::message::{
    Message,
    MessageView,
    views,
    clone_opt_string,
    other_messages,
    tool_calls_of,
    lemma_views_push,
};
use crate::permissions::{PermissionRecord, PermissionModeView, PromptChoice};
use crate::strutil::{str_eqs, push_chars, string_from_chars};

verus! {

/// The result text fed back to the model for a call the operator denied.
pub open spec fn denial_text() -> Seq<char> {
    "The user denied this tool call. Control has been returned to the user to provide guidance on how to proceed differently."@
}

/// The result text fed back to the model for a call cancelled because an
/// earlier call in the same batch was denied.
pub open spec fn cancellation_text() -> Seq<char> {
    "Tool execution cancelled because the user denied a previous tool call in this batch. Control has been returned to the user to provide guidance on how to proceed."@
}

/// An optional id, with absence read as the empty string.
pub open spec fn opt_or_empty(id: Option<Seq<char>>) -> Seq<char> {
    match id {
        Option::Some(s) => s,
        Option::None => Seq::<char>::empty(),
    }
}

/// Mathematical model of a [`CallOutcome`].
pub enum CallOutcomeView {
    Succeeded { output: Seq<char> },
    Failed { error_text: Seq<char> },
}

/// What executing one authorized tool call produced: its output text, or the
/// text of the failure. A failing call never aborts the turn; it becomes an
/// error-flagged result fed back to the model.
#[derive(Debug, Clone)]
pub enum CallOutcome {
    Succeeded { output: String },
    Failed { error_text: String },
}

impl View for CallOutcome {
    type V = CallOutcomeView;

    open spec fn view(&self) -> CallOutcomeView {
        match self {
            CallOutcome::Succeeded { output } => CallOutcomeView::Succeeded { output: output@ },
            CallOutcome::Failed { error_text } => CallOutcomeView::Failed {
                error_text: error_text@,
            },
        }
    }
}

/// The result message for an executed call: keyed to the call's id (or the
/// empty string where the call carried none), with the error flag saying
/// whether the tool failed.
pub open spec fn outcome_result_spec(call: MessageView, oc: CallOutcomeView) -> MessageView
    recommends
        call is ToolCall,
{
    MessageView::ToolResult {
        id: Option::Some(opt_or_empty(call->ToolCall_id)),
        output: match oc {
            CallOutcomeView::Succeeded { output } => output,
            CallOutcomeView::Failed { error_text } => error_text,
        },
        is_error: oc is Failed,
    }
}

/// The result message for a call the operator denied.
pub open spec fn denial_result_spec(call: MessageView) -> MessageView
    recommends
        call is ToolCall,
{
    MessageView::ToolResult {
        id: Option::Some(opt_or_empty(call->ToolCall_id)),
        output: denial_text(),
        is_error: true,
    }
}

/// The result message for a call cancelled after an earlier denial; it keeps
/// the call's own id, present or not.
pub open spec fn cancellation_result_spec(call: MessageView) -> MessageView
    recommends
        call is ToolCall,
{
    MessageView::ToolResult { id: call->ToolCall_id, output: cancellation_text(), is_error: true }
}

/// What happened to one call of a batch, as the batch records it.
pub enum BatchEventView {
    Executed(CallOutcomeView),
    Denied,
    Cancelled,
}

/// The result message that one batch event produces for its call.
pub open spec fn event_result(call: MessageView, ev: BatchEventView) -> MessageView {
    match ev {
        BatchEventView::Executed(oc) => outcome_result_spec(call, oc),
        BatchEventView::Denied => denial_result_spec(call),
        BatchEventView::Cancelled => cancellation_result_spec(call),
    }
}

/// The ordered tool calls of one model response, processed strictly in
/// model-return order. Each call receives exactly one result; once a call is
/// denied, every later call can only be cancelled, never executed.
pub struct ToolCallBatch {
    calls: Vec<Message>,
    results: Vec<Message>,
    denied: bool,
    events: Ghost<Seq<BatchEventView>>,
}

impl ToolCallBatch {
    /// The calls of the batch, in model-return order.
    pub closed spec fn calls_seq(self) -> Seq<MessageView> {
        views(self.calls@)
    }

    /// The results settled so far, one per processed call, in order.
    pub closed spec fn results_seq(self) -> Seq<MessageView> {
        views(self.results@)
    }

    /// What happened to each processed call.
    pub closed spec fn events_seq(self) -> Seq<BatchEventView> {
        self.events@
    }

    /// Whether some processed call was denied.
    pub closed spec fn denial_seen(self) -> bool {
        self.denied
    }

    /// Whether every call has received its result.
    pub open spec fn done(self) -> bool {
        self.results_seq().len() == self.calls_seq().len()
    }

    /// The position of the next unprocessed call.
    pub open spec fn next_index(self) -> int {
        self.results_seq().len() as int
    }

    /// Consistency of the batch record: every call is a tool call, each
    /// processed call's result is the one its event dictates, the denial flag
    /// reflects the events, and after a denial only cancellations follow.
    pub open spec fn wf(self) -> bool {
        &&& forall|i: int|
            0 <= i < self.calls_seq().len() ==> (#[trigger] self.calls_seq()[i]) is ToolCall
        &&& self.results_seq().len() <= self.calls_seq().len()
        &&& self.events_seq().len() == self.results_seq().len()
        &&& forall|i: int|
            0 <= i < self.results_seq().len() ==> #[trigger] self.results_seq()[i] == event_result(
                self.calls_seq()[i],
                self.events_seq()[i],
            )
        &&& self.denial_seen() <==> exists|i: int|
            0 <= i < self.events_seq().len() && (#[trigger] self.events_seq()[i]) is Denied
        &&& forall|i: int, j: int|
            0 <= i < j < self.events_seq().len() && (#[trigger] self.events_seq()[i]) is Denied
                ==> (#[trigger] self.events_seq()[j]) is Cancelled
    }

    /// Begins a batch over the given tool calls.
    pub fn new(calls: Vec<Message>) -> (r: Self)
        requires
            forall|i: int| 0 <= i < calls@.len() ==> (#[trigger] calls@[i]@) is ToolCall,
        ensures
            r.wf(),
            r.calls_seq() == views(calls@),
            r.results_seq() == Seq::<MessageView>::empty(),
            r.events_seq() == Seq::<BatchEventView>::empty(),
            !r.denial_seen(),
    {
        let r = ToolCallBatch {
            calls,
            results: Vec::new(),
            denied: false,
            events: Ghost(Seq::empty()),
        };
        proof {
            assert(r.results_seq() =~= Seq::<MessageView>::empty());
            assert forall|i: int| 0 <= i < r.calls_seq().len() implies (
            #[trigger] r.calls_seq()[i]) is ToolCall by {
                assert(r.calls_seq()[i] == r.calls@[i]@);
            }
        }
        r
    }

    /// Whether every call has received its result.
    pub fn is_done(&self) -> (r: bool)
        ensures
            r == self.done(),
    {
        self.results.len() == self.calls.len()
    }

    /// Whether the next call should actually be executed: it should not once
    /// any earlier call of this batch was denied.
    pub fn needs_execution(&self) -> (r: bool)
        requires
            self.wf(),
        ensures
            r == (!self.done() && !self.denial_seen()),
    {
        self.results.len() < self.calls.len() && !self.denied
    }

    /// The next unprocessed call.
    pub fn current_call(&self) -> (c: &Message)
        requires
            self.wf(),
            !self.done(),
        ensures
            c@ == self.calls_seq()[self.next_index()],
            c@ is ToolCall,
    {
        let i = self.results.len();
        proof {
            assert(self.calls_seq()[i as int] is ToolCall);
        }
        &self.calls[i]
    }

    /// The current call was authorized and executed; settles its result from
    /// the outcome. The denial flag is untouched: an execution failure is fed
    /// back to the model, it does not cancel the batch.
    pub fn apply_outcome(&mut self, outcome: CallOutcome)
        requires
            old(self).wf(),
            !old(self).done(),
            !old(self).denial_seen(),
        ensures
            final(self).wf(),
            final(self).calls_seq() == old(self).calls_seq(),
            final(self).results_seq() == old(self).results_seq().push(
                outcome_result_spec(old(self).calls_seq()[old(self).next_index()], outcome@),
            ),
            final(self).events_seq() == old(self).events_seq().push(
                BatchEventView::Executed(outcome@),
            ),
            !final(self).denial_seen(),
    {
        let ghost ov = outcome@;
        let k = self.results.len();
        let id = extract_tool_id(&self.calls[k]);
        let (output, is_error) = match outcome {
            CallOutcome::Succeeded { output } => (output, false),
            CallOutcome::Failed { error_text } => (error_text, true),
        };
        let result = Message::ToolResult { id: Option::Some(id), output, is_error };
        self.results.push(result);
        self.events = Ghost(self.events@.push(BatchEventView::Executed(ov)));
        proof {
            self.lemma_after_step(*old(self), BatchEventView::Executed(ov));
        }
    }

    /// The operator denied the current call; settles the distinct "denied"
    /// result and marks the batch so that no later call executes.
    pub fn apply_denial(&mut self)
        requires
            old(self).wf(),
            !old(self).done(),
            !old(self).denial_seen(),
        ensures
            final(self).wf(),
            final(self).calls_seq() == old(self).calls_seq(),
            final(self).results_seq() == old(self).results_seq().push(
                denial_result_spec(old(self).calls_seq()[old(self).next_index()]),
            ),
            final(self).events_seq() == old(self).events_seq().push(BatchEventView::Denied),
            final(self).denial_seen(),
    {
        let k = self.results.len();
        let result = create_denial_message(&self.calls[k]);
        self.results.push(result);
        self.denied = true;
        self.events = Ghost(self.events@.push(BatchEventView::Denied));
        proof {
            self.lemma_after_step(*old(self), BatchEventView::Denied);
        }
    }

    /// A prior call of this batch was denied: the current call is neither
    /// previewed nor executed, and settles the "cancelled" result keyed to
    /// its own id.
    pub fn apply_cancellation(&mut self)
        requires
            old(self).wf(),
            !old(self).done(),
            old(self).denial_seen(),
        ensures
            final(self).wf(),
            final(self).calls_seq() == old(self).calls_seq(),
            final(self).results_seq() == old(self).results_seq().push(
                cancellation_result_spec(old(self).calls_seq()[old(self).next_index()]),
            ),
            final(self).events_seq() == old(self).events_seq().push(BatchEventView::Cancelled),
            final(self).denial_seen(),
    {
        let k = self.results.len();
        let result = create_cancellation_message(&self.calls[k]);
        self.results.push(result);
        self.events = Ghost(self.events@.push(BatchEventView::Cancelled));
        proof {
            self.lemma_after_step(*old(self), BatchEventView::Cancelled);
        }
    }

    /// One step appended one result and one event; everything the
    /// well-formedness invariant says is preserved.
    proof fn lemma_after_step(self, prev: Self, ev: BatchEventView)
        requires
            prev.wf(),
            !prev.done(),
            ev is Denied ==> !prev.denial_seen(),
            ev is Executed ==> !prev.denial_seen(),
            self.calls@ == prev.calls@,
            self.results@.len() == prev.results@.len() + 1,
            self.results@ == prev.results@.push(self.results@.last()),
            self.results_seq().last() == event_result(self.calls_seq()[prev.next_index()], ev),
            self.events_seq() == prev.events_seq().push(ev),
            self.denied == (prev.denied || ev is Denied),
        ensures
            self.wf(),
            self.results_seq() == prev.results_seq().push(
                event_result(prev.calls_seq()[prev.next_index()], ev),
            ),
    {
        assert(self.results_seq() =~= prev.results_seq().push(
            event_result(prev.calls_seq()[prev.next_index()], ev),
        ));
        let n = self.events_seq().len();
        if self.denied {
            if prev.denied {
                let i = choose|i: int|
                    0 <= i < prev.events_seq().len() && (#[trigger] prev.events_seq()[i]) is Denied;
                assert(0 <= i < n && self.events_seq()[i] is Denied);
            } else {
                assert(self.events_seq()[n - 1] is Denied);
            }
        } else {
            assert forall|i: int| 0 <= i < n implies !((#[trigger] self.events_seq()[i]) is Denied) by {
                if i < n - 1 {
                    assert(prev.events_seq()[i] == self.events_seq()[i]);
                }
            }
        }
        assert forall|i: int, j: int|
            0 <= i < j < n && (#[trigger] self.events_seq()[i]) is Denied implies (
        #[trigger] self.events_seq()[j]) is Cancelled by {
            if j < n - 1 {
                assert(prev.events_seq()[i] == self.events_seq()[i]);
                assert(prev.events_seq()[j] == self.events_seq()[j]);
            } else {
                assert(prev.events_seq()[i] == self.events_seq()[i]);
                if ev is Executed || ev is Denied {
                    assert(prev.events_seq()[i] is Denied);
                    assert(prev.denial_seen());
                }
            }
        }
    }
}

/// Law: one denial cancels the remainder of the batch. Wherever a
/// well-formed batch record shows a denial, every later call was never
/// executed: its event is a cancellation, and its settled result is the
/// cancellation result keyed to that call's own id.
pub proof fn lemma_batch_denial(b: ToolCallBatch, i: int, j: int)
    requires
        b.wf(),
        0 <= i < j < b.events_seq().len(),
        b.events_seq()[i] is Denied,
    ensures
        b.events_seq()[j] is Cancelled,
        b.results_seq()[j] == cancellation_result_spec(b.calls_seq()[j]),
{
}

/// The id of a tool call, with absence read as the empty string.
pub fn extract_tool_id(call: &Message) -> (id: String)
    requires
        call@ is ToolCall,
    ensures
        id@ == opt_or_empty(call@->ToolCall_id),
{
    match call {
        Message::ToolCall { id: Option::Some(s), .. } => s.clone(),
        _ => String::new(),
    }
}

/// The distinct "denied by user" result for a call.
pub fn create_denial_message(call: &Message) -> (r: Message)
    requires
        call@ is ToolCall,
    ensures
        r@ == denial_result_spec(call@),
{
    let id = extract_tool_id(call);
    Message::ToolResult {
        id: Option::Some(id),
        output:
            "The user denied this tool call. Control has been returned to the user to provide guidance on how to proceed differently.".to_owned(),
        is_error: true,
    }
}

/// The "cancelled after a prior denial" result for a call.
pub fn create_cancellation_message(call: &Message) -> (r: Message)
    requires
        call@ is ToolCall,
    ensures
        r@ == cancellation_result_spec(call@),
{
    match call {
        Message::ToolCall { id, .. } => Message::ToolResult {
            id: clone_opt_string(id),
            output:
                "Tool execution cancelled because the user denied a previous tool call in this batch. Control has been returned to the user to provide guidance on how to proceed.".to_owned(),
            is_error: true,
        },
        _ => Message::ToolResult {
            id: Option::None,
            output: String::new(),
            is_error: true,
        },
    }
}

/// `calls` and `results` interleaved pairwise: call, result, call, result, …
pub open spec fn zip_pairs(calls: Seq<MessageView>, results: Seq<MessageView>) -> Seq<MessageView>
    decreases calls.len(),
{
    if calls.len() == 0 || results.len() == 0 {
        Seq::<MessageView>::empty()
    } else {
        seq![calls[0], results[0]] + zip_pairs(calls.drop_first(), results.drop_first())
    }
}

proof fn lemma_zip_pairs_snoc(calls: Seq<MessageView>, results: Seq<MessageView>, k: int)
    requires
        0 <= k,
        k + 1 <= calls.len(),
        k + 1 <= results.len(),
    ensures
        zip_pairs(calls.take(k + 1), results.take(k + 1)) == zip_pairs(
            calls.take(k),
            results.take(k),
        ) + seq![calls[k], results[k]],
    decreases k,
{
    if k == 0 {
        assert(calls.take(0) =~= Seq::<MessageView>::empty());
        assert(results.take(0) =~= Seq::<MessageView>::empty());
        assert(calls.take(1).drop_first() =~= Seq::<MessageView>::empty());
        assert(results.take(1).drop_first() =~= Seq::<MessageView>::empty());
        assert(calls.take(1)[0] == calls[0]);
        assert(results.take(1)[0] == results[0]);
        assert(zip_pairs(calls.take(1), results.take(1)) =~= seq![calls[0], results[0]]);
    } else {
        lemma_zip_pairs_snoc(calls.drop_first(), results.drop_first(), k - 1);
        assert(calls.take(k + 1).drop_first() =~= calls.drop_first().take(k));
        assert(results.take(k + 1).drop_first() =~= results.drop_first().take(k));
        assert(calls.take(k).drop_first() =~= calls.drop_first().take(k - 1));
        assert(results.take(k).drop_first() =~= results.drop_first().take(k - 1));
        assert(calls.take(k + 1)[0] == calls[0]);
        assert(results.take(k + 1)[0] == results[0]);
        assert(calls.take(k)[0] == calls[0]);
        assert(results.take(k)[0] == results[0]);
        assert(calls.drop_first()[k - 1] == calls[k]);
        assert(results.drop_first()[k - 1] == results[k]);
        assert(zip_pairs(calls.take(k + 1), results.take(k + 1)) =~= zip_pairs(
            calls.take(k),
            results.take(k),
        ) + seq![calls[k], results[k]]);
    }
}

/// What the operator typed, at the outer loop: an empty line is skipped,
/// `exit` ends the session, anything else is sent to the model.
#[derive(Debug, Clone, PartialEq, Eq)]
pub enum UserInputAction {
    Skip,
    Exit,
    Send,
}

/// Classifies one line of operator input for the outer session loop.
pub fn classify_user_input(line: &str) -> (a: UserInputAction)
    ensures
        a == (if line@.len() == 0 {
            UserInputAction::Skip
        } else if line@ == "exit"@ {
            UserInputAction::Exit
        } else {
            UserInputAction::Send
        }),
{
    if line.is_empty() {
        UserInputAction::Skip
    } else if str_eqs(line, "exit") {
        UserInputAction::Exit
    } else {
        UserInputAction::Send
    }
}

/// The prompt shown when a tool call needs the operator's confirmation.
pub fn permission_prompt(permission_id: &str) -> (p: String)
    ensures
        p@ == "[1: allow, 2: always allow for "@ + permission_id@
            + ", 3: deny and tell me what to do differently] > "@,
{
    let mut v: Vec<char> = Vec::new();
    push_chars(&mut v, "[1: allow, 2: always allow for ");
    push_chars(&mut v, permission_id);
    push_chars(&mut v, ", 3: deny and tell me what to do differently] > ");
    string_from_chars(&v)
}

/// One conversation: the append-only message history, the permission record,
/// the auto-approve flag, and the names of the registered tools, fixed at
/// construction.
pub struct Session {
    history: Vec<Message>,
    permissions: PermissionRecord,
    auto_approve: bool,
    tool_names: Vec<String>,
}

impl Session {
    /// The committed history, oldest first.
    pub closed spec fn history_seq(self) -> Seq<MessageView> {
        views(self.history@)
    }

    /// Whether the session bypasses the permission authority entirely.
    pub closed spec fn auto_approve_mode(self) -> bool {
        self.auto_approve
    }

    /// The per-tool authorization record.
    pub closed spec fn permission_record(self) -> PermissionRecord {
        self.permissions
    }

    /// The names of the registered tools.
    pub closed spec fn tools_seq(self) -> Seq<Seq<char>> {
        self.tool_names@.map_values(|s: String| s@)
    }

    /// Whether a tool of this name is registered.
    pub open spec fn tool_registered_spec(self, name: Seq<char>) -> bool {
        exists|i: int| 0 <= i < self.tools_seq().len() && self.tools_seq()[i] == name
    }

    /// A fresh session: empty history, every tool unapproved.
    pub fn new(tool_names: Vec<String>, auto_approve: bool) -> (r: Session)
        ensures
            r.history_seq() == Seq::<MessageView>::empty(),
            r.auto_approve_mode() == auto_approve,
            forall|t: Seq<char>| #[trigger]
                r.permission_record().mode_of(t) == PermissionModeView::Ask,
            r.tools_seq() == tool_names@.map_values(|s: String| s@),
    {
        let r = Session {
            history: Vec::new(),
            permissions: PermissionRecord::new(),
            auto_approve,
            tool_names,
        };
        proof {
            assert(r.history_seq() =~= Seq::<MessageView>::empty());
        }
        r
    }

    /// The committed history, for the caller to hand to the model.
    pub fn message_history(&self) -> (h: &Vec<Message>)
        ensures
            views(h@) == self.history_seq(),
    {
        &self.history
    }

    /// Whether the session bypasses the permission authority entirely.
    pub fn is_auto_approve(&self) -> (r: bool)
        ensures
            r == self.auto_approve_mode(),
    {
        self.auto_approve
    }

    /// Whether a tool of this name is registered. An unregistered name coming
    /// back from the model is a contract violation that aborts the turn.
    pub fn tool_registered(&self, name: &str) -> (r: bool)
        ensures
            r == self.tool_registered_spec(name@),
    {
        let mut i: usize = 0;
        while i < self.tool_names.len()
            invariant
                i <= self.tool_names@.len(),
                forall|j: int| 0 <= j < i ==> self.tools_seq()[j] != name@,
            decreases self.tool_names@.len() - i,
        {
            if str_eqs(self.tool_names[i].as_str(), name) {
                proof {
                    assert(self.tools_seq()[i as int] == name@);
                }
                return true;
            }
            i = i + 1;
        }
        false
    }

    /// Whether this call must be confirmed by the operator before it may
    /// execute; in auto-approve mode, never.
    pub fn requires_prompt(&self, tool_name: &str, fingerprint: &str) -> (r: bool)
        ensures
            r == self.permission_record().requires_prompt_spec(
                self.auto_approve_mode(),
                tool_name@,
                fingerprint@,
            ),
            self.auto_approve_mode() ==> !r,
    {
        self.permissions.requires_prompt(self.auto_approve, tool_name, fingerprint)
    }

    /// Applies the operator's answer to a permission prompt; the result says
    /// whether the call may execute. History is untouched.
    pub fn record_prompt_choice(&mut self, tool_name: &str, fingerprint: &str, choice:
        &PromptChoice) -> (allowed: bool)
        ensures
            allowed == (choice is AllowOnce || choice is AlwaysAllow),
            choice is AlwaysAllow ==> final(self).permission_record().mode_of(tool_name@) == (
            PermissionModeView::ApprovedForId { command_id: fingerprint@ }),
            choice is AlwaysAllow ==> forall|t: Seq<char>|
                t != tool_name@ ==> #[trigger] final(self).permission_record().mode_of(t) == old(
                    self,
                ).permission_record().mode_of(t),
            !(choice is AlwaysAllow) ==> forall|t: Seq<char>| #[trigger]
                final(self).permission_record().mode_of(t) == old(self).permission_record().mode_of(
                    t,
                ),
            final(self).history_seq() == old(self).history_seq(),
            final(self).auto_approve_mode() == old(self).auto_approve_mode(),
            final(self).tools_seq() == old(self).tools_seq(),
    {
        self.permissions.record_choice(tool_name, fingerprint, choice)
    }

    /// Commits one model exchange: the message that was sent joins the
    /// history, then every non-tool-call message of the response, in response
    /// order. The tool calls are returned, in response order, as the batch to
    /// process; nothing already committed moves.
    pub fn absorb_model_response(&mut self, current: Message, response: Vec<Message>) -> (calls:
        Vec<Message>)
        ensures
            final(self).history_seq() == old(self).history_seq() + seq![current@]
                + other_messages(views(response@)),
            views(calls@) == tool_calls_of(views(response@)),
            forall|i: int| 0 <= i < calls@.len() ==> (#[trigger] calls@[i]@) is ToolCall,
            old(self).history_seq().is_prefix_of(final(self).history_seq()),
            final(self).permission_record() == old(self).permission_record(),
            final(self).auto_approve_mode() == old(self).auto_approve_mode(),
            final(self).tools_seq() == old(self).tools_seq(),
    {
        let ghost h0 = self.history_seq();
        self.history.push(current);
        proof {
            assert(self.history_seq() =~= h0 + seq![current@]);
            assert(views(response@.subrange(0, 0)) =~= Seq::<MessageView>::empty());
        }
        let mut calls: Vec<Message> = Vec::new();
        let mut i: usize = 0;
        while i < response.len()
            invariant
                i <= response@.len(),
                self.history_seq() == h0 + seq![current@] + other_messages(
                    views(response@.subrange(0, i as int)),
                ),
                views(calls@) == tool_calls_of(views(response@.subrange(0, i as int))),
                forall|j: int| 0 <= j < calls@.len() ==> (#[trigger] calls@[j]@) is ToolCall,
                self.permissions == old(self).permissions,
                self.auto_approve == old(self).auto_approve,
                self.tool_names@ == old(self).tool_names@,
            decreases response@.len() - i,
        {
            let ghost pre = views(response@.subrange(0, i as int));
            let ghost post = views(response@.subrange(0, i as int + 1));
            let ghost x = response@[i as int]@;
            proof {
                assert(post =~= pre.push(x));
                assert(post.drop_last() =~= pre);
                assert(post.last() == x);
            }
            let m = response[i].duplicate();
            let ghost hpre = self.history@;
            let ghost cpre = calls@;
            if m.is_tool_call() {
                calls.push(m);
                proof {
                    assert(x is ToolCall);
                    assert(tool_calls_of(post) == tool_calls_of(pre).push(x));
                    assert(other_messages(post) == other_messages(pre));
                    lemma_views_push(cpre, calls@.last());
                    assert(views(calls@) =~= tool_calls_of(post));
                }
            } else {
                self.history.push(m);
                proof {
                    assert(!(x is ToolCall));
                    assert(other_messages(post) == other_messages(pre).push(x));
                    assert(tool_calls_of(post) == tool_calls_of(pre));
                    lemma_views_push(hpre, self.history@.last());
                    assert(self.history_seq() =~= h0 + seq![current@] + other_messages(post));
                    assert(views(calls@) =~= tool_calls_of(post));
                }
            }
            i = i + 1;
        }
        proof {
            assert(response@.subrange(0, response@.len() as int) =~= response@);
            assert(h0.is_prefix_of(self.history_seq()));
        }
        calls
    }

    /// Commits a finished batch per the turn rule: every call–result pair but
    /// the last joins the history in order, then the last call. When no call
    /// was denied, the last result is returned as the next message to send to
    /// the model and the turn goes on; after a denial the last result joins
    /// the history too, and the turn ends.
    pub fn finish_batch(&mut self, batch: ToolCallBatch) -> (next: Option<Message>)
        requires
            batch.wf(),
            batch.done(),
            batch.calls_seq().len() > 0,
        ensures
            batch.denial_seen() ==> final(self).history_seq() == old(self).history_seq()
                + zip_pairs(batch.calls_seq(), batch.results_seq()),
            batch.denial_seen() ==> next is None,
            !batch.denial_seen() ==> final(self).history_seq() == old(self).history_seq()
                + zip_pairs(
                batch.calls_seq().drop_last(),
                batch.results_seq().drop_last(),
            ) + seq![batch.calls_seq().last()],
            !batch.denial_seen() ==> (next matches Some(m) && m@ == batch.results_seq().last()),
            old(self).history_seq().is_prefix_of(final(self).history_seq()),
            final(self).permission_record() == old(self).permission_record(),
            final(self).auto_approve_mode() == old(self).auto_approve_mode(),
            final(self).tools_seq() == old(self).tools_seq(),
    {
        let ghost h0 = self.history_seq();
        let ghost cs = batch.calls_seq();
        let ghost rs = batch.results_seq();
        let n = batch.calls.len();
        proof {
            assert(cs.take(0) =~= Seq::<MessageView>::empty());
            assert(rs.take(0) =~= Seq::<MessageView>::empty());
        }
        let mut i: usize = 0;
        while i < n - 1
            invariant
                i <= n - 1,
                n == batch.calls@.len(),
                n == batch.results@.len(),
                n >= 1,
                cs == batch.calls_seq(),
                rs == batch.results_seq(),
                self.history_seq() == h0 + zip_pairs(cs.take(i as int), rs.take(i as int)),
                self.permissions == old(self).permissions,
                self.auto_approve == old(self).auto_approve,
                self.tool_names@ == old(self).tool_names@,
            decreases n - i,
        {
            let c = batch.calls[i].duplicate();
            let r = batch.results[i].duplicate();
            let ghost hpre = self.history@;
            self.history.push(c);
            let ghost hmid = self.history@;
            self.history.push(r);
            proof {
                lemma_zip_pairs_snoc(cs, rs, i as int);
                lemma_views_push(hpre, hmid.last());
                lemma_views_push(hmid, self.history@.last());
                assert(self.history_seq() =~= h0 + zip_pairs(
                    cs.take(i as int + 1),
                    rs.take(i as int + 1),
                ));
            }
            i = i + 1;
        }
        let last_call = batch.calls[n - 1].duplicate();
        let ghost hpre = self.history@;
        self.history.push(last_call);
        proof {
            lemma_views_push(hpre, self.history@.last());
            assert(cs.take(n - 1) =~= cs.drop_last());
            assert(rs.take(n - 1) =~= rs.drop_last());
            assert(self.history_seq() =~= h0 + zip_pairs(cs.drop_last(), rs.drop_last()) + seq![
                cs.last(),
            ]);
        }
        if batch.denied {
            let last_result = batch.results[n - 1].duplicate();
            let ghost hmid = self.history@;
            self.history.push(last_result);
            proof {
                lemma_views_push(hmid, self.history@.last());
                lemma_zip_pairs_snoc(cs, rs, (n - 1) as int);
                assert(cs.take(n as int) =~= cs);
                assert(rs.take(n as int) =~= rs);
                assert(self.history_seq() =~= h0 + zip_pairs(cs, rs));
                assert(h0.is_prefix_of(self.history_seq()));
            }
            Option::None
        } else {
            proof {
                assert(h0.is_prefix_of(self.history_seq()));
            }
            Option::Some(batch.results[n - 1].duplicate())
        }
    }
}

} // verus!
