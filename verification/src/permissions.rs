//! The permission authority: decides whether a model-issued tool call may
//! execute, with per-tool memoized approval.
//!
//! Each tool name is in one of two states: `Ask` (the initial state) or
//! `ApprovedForId(fingerprint)`. Only the explicit "always allow" choice moves
//! a tool to `ApprovedForId`, and a new approval overwrites the previous one:
//! there is only one standing approval per tool at a time.

use vstd::prelude::*;
use vstd::hash_map::StringHashMap;
use crate::strutil::str_eqs;

verus! {

/// Mathematical model of a [`PermissionMode`].
pub enum PermissionModeView {
    Ask,
    ApprovedForId { command_id: Seq<char> },
}

/// The authorization state of one tool.
#[derive(Debug, Clone)]
pub enum PermissionMode {
    Ask,
    ApprovedForId { command_id: String },
}

impl View for PermissionMode {
    type V = PermissionModeView;

    open spec fn view(&self) -> PermissionModeView {
        match self {
            PermissionMode::Ask => PermissionModeView::Ask,
            PermissionMode::ApprovedForId { command_id } => PermissionModeView::ApprovedForId {
                command_id: command_id@,
            },
        }
    }
}

/// What the operator may answer when prompted for a tool call: allow it this
/// once, record a standing approval for its fingerprint, or deny it. Any
/// other or absent answer means denial.
#[derive(Debug, Clone, PartialEq, Eq)]
pub enum PromptChoice {
    AllowOnce,
    AlwaysAllow,
    Deny,
}

/// The per-tool authorization record. It starts empty (every tool in `Ask`)
/// and grows only through the explicit "always allow" choice.
pub struct PermissionRecord {
    modes: StringHashMap<PermissionMode>,
}

impl PermissionRecord {
    /// The authorization state recorded for a tool name; `Ask` when none is.
    pub closed spec fn mode_of(self, tool: Seq<char>) -> PermissionModeView {
        if self.modes@.contains_key(tool) {
            self.modes@[tool]@
        } else {
            PermissionModeView::Ask
        }
    }

    /// Whether a call to `tool` with `fingerprint` must be confirmed by the
    /// operator: auto-approve mode never prompts; otherwise a tool in `Ask`
    /// or one approved for a different fingerprint prompts.
    pub open spec fn requires_prompt_spec(
        self,
        auto_approve: bool,
        tool: Seq<char>,
        fingerprint: Seq<char>,
    ) -> bool {
        !auto_approve && match self.mode_of(tool) {
            PermissionModeView::Ask => true,
            PermissionModeView::ApprovedForId { command_id } => command_id != fingerprint,
        }
    }

    /// An empty record: every tool starts in `Ask`.
    pub fn new() -> (r: Self)
        ensures
            forall|t: Seq<char>| #[trigger] r.mode_of(t) == PermissionModeView::Ask,
    {
        PermissionRecord { modes: StringHashMap::new() }
    }

    /// Decides whether this call must be confirmed by the operator before it
    /// may execute. In auto-approve mode nothing ever prompts, whatever the
    /// record holds.
    pub fn requires_prompt(&self, auto_approve: bool, tool_name: &str, fingerprint: &str) -> (r:
        bool)
        ensures
            r == self.requires_prompt_spec(auto_approve, tool_name@, fingerprint@),
            auto_approve ==> !r,
    {
        if auto_approve {
            return false;
        }
        match self.modes.get(tool_name) {
            Option::None => true,
            Option::Some(mode) => match mode {
                PermissionMode::Ask => true,
                PermissionMode::ApprovedForId { command_id } => !str_eqs(
                    command_id.as_str(),
                    fingerprint,
                ),
            },
        }
    }

    /// Applies the operator's answer to a prompt. Only `AlwaysAllow` changes
    /// the record: it overwrites the tool's standing approval with this
    /// fingerprint. The result says whether the call may execute.
    pub fn record_choice(&mut self, tool_name: &str, fingerprint: &str, choice: &PromptChoice) -> (
        allowed: bool)
        ensures
            allowed == (choice is AllowOnce || choice is AlwaysAllow),
            choice is AlwaysAllow ==> final(self).mode_of(tool_name@)
                == (PermissionModeView::ApprovedForId { command_id: fingerprint@ }),
            choice is AlwaysAllow ==> forall|t: Seq<char>|
                t != tool_name@ ==> #[trigger] final(self).mode_of(t) == old(self).mode_of(t),
            !(choice is AlwaysAllow) ==> forall|t: Seq<char>| #[trigger]
                final(self).mode_of(t) == old(self).mode_of(t),
    {
        match choice {
            PromptChoice::AllowOnce => true,
            PromptChoice::AlwaysAllow => {
                let mode = PermissionMode::ApprovedForId { command_id: fingerprint.to_owned() };
                self.modes.insert(tool_name.to_owned(), mode);
                true
            },
            PromptChoice::Deny => false,
        }
    }
}

/// How an operator's raw answer to a permission prompt reads: `"1"` allows
/// once, `"2"` records a standing approval, anything else — including no
/// answer at all — denies.
pub open spec fn interpret_response_spec(response: Option<Seq<char>>) -> PromptChoice {
    match response {
        Option::Some(s) => if s == "1"@ {
            PromptChoice::AllowOnce
        } else if s == "2"@ {
            PromptChoice::AlwaysAllow
        } else {
            PromptChoice::Deny
        },
        Option::None => PromptChoice::Deny,
    }
}

/// Interprets the operator's raw answer to a permission prompt.
pub fn interpret_prompt_response(response: &Option<String>) -> (c: PromptChoice)
    ensures
        c == interpret_response_spec(crate::message::view_opt_string(*response)),
{
    match response {
        Option::Some(s) => {
            if str_eqs(s.as_str(), "1") {
                PromptChoice::AllowOnce
            } else if str_eqs(s.as_str(), "2") {
                PromptChoice::AlwaysAllow
            } else {
                PromptChoice::Deny
            }
        },
        Option::None => PromptChoice::Deny,
    }
}

/// Law: a standing approval is tool-scoped and fingerprint-exact. Once
/// fingerprint `fp` is approved for tool `t`, a later call to `t` with `fp`
/// never re-prompts, while a call to `t` with any other fingerprint always
/// re-prompts (outside auto-approve mode).
pub proof fn lemma_approval_idempotent(
    rec: PermissionRecord,
    t: Seq<char>,
    fp: Seq<char>,
    fp2: Seq<char>,
)
    requires
        rec.mode_of(t) == (PermissionModeView::ApprovedForId { command_id: fp }),
        fp2 != fp,
    ensures
        !rec.requires_prompt_spec(false, t, fp),
        rec.requires_prompt_spec(false, t, fp2),
{
}

/// Law: auto-approve mode disables the permission authority entirely — no
/// call prompts, whatever the record holds.
pub proof fn lemma_auto_approve_never_prompts(rec: PermissionRecord, t: Seq<char>, fp: Seq<char>)
    ensures
        !rec.requires_prompt_spec(true, t, fp),
{
}

} // verus!
