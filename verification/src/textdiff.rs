//! Line diffs between two texts: the change list comes from an outside
//! diff engine; everything rendered from it — the full colored diff and the
//! curtailed summary — is computed and verified here.

use vstd::prelude::*;
use crate::strutil::{push_chars, string_from_chars, string_views, lines_spec, split_lines,
    join_with, join_strings, decimal_chars, usize_decimal};

verus! {

/// What one line of a diff did.
#[derive(Debug, Clone, Copy, PartialEq, Eq, Structural)]
pub enum ChangeTag {
    Delete,
    Insert,
    Equal,
}

/// Mathematical model of a [`DiffChange`].
pub struct DiffChangeView {
    pub tag: ChangeTag,
    pub text: Seq<char>,
}

/// One change of a line diff: its tag and the line's text, line break
/// included.
#[derive(Debug, Clone, PartialEq, Eq)]
pub struct DiffChange {
    pub tag: ChangeTag,
    pub text: String,
}

impl View for DiffChange {
    type V = DiffChangeView;

    open spec fn view(&self) -> DiffChangeView {
        DiffChangeView { tag: self.tag, text: self.text@ }
    }
}

/// The line change list of two texts. The diff engine computes it from the
/// two character sequences alone; each entry is a tag code and the line's
/// text.
pub uninterp spec fn line_diff(old: Seq<char>, new: Seq<char>) -> Seq<(u8, Seq<char>)>;

/// The change a coded entry stands for.
pub open spec fn change_of_code(p: (u8, Seq<char>)) -> DiffChangeView {
    DiffChangeView {
        tag: if p.0 == 0 {
            ChangeTag::Delete
        } else if p.0 == 1 {
            ChangeTag::Insert
        } else {
            ChangeTag::Equal
        },
        text: p.1,
    }
}

/// The changes a coded list stands for.
pub open spec fn changes_of(ps: Seq<(u8, Seq<char>)>) -> Seq<DiffChangeView> {
    Seq::new(ps.len(), |j: int| change_of_code(ps[j]))
}

/// The views of a vector of changes.
pub open spec fn change_views(cs: Seq<DiffChange>) -> Seq<DiffChangeView> {
    cs.map_values(|c: DiffChange| c@)
}

/// Relies on similar's `TextDiff::from_lines` and `iter_all_changes`: the
/// line change list of two texts depends on their characters alone.
#[verifier::external_body]
pub fn diff_changes(old: &str, new: &str) -> (r: Vec<DiffChange>)
    ensures
        change_views(r@) == changes_of(line_diff(old@, new@)),
{
    let d = similar::TextDiff::from_lines(old, new);
    let mut out: Vec<DiffChange> = Vec::new();
    for ch in d.iter_all_changes() {
        let tag = match ch.tag() {
            similar::ChangeTag::Delete => ChangeTag::Delete,
            similar::ChangeTag::Insert => ChangeTag::Insert,
            similar::ChangeTag::Equal => ChangeTag::Equal,
        };
        out.push(DiffChange { tag, text: ch.value().to_string() });
    }
    out
}

/// The rendered form of one change in the full diff: deletions red with a
/// minus, insertions green with a plus, context indented.
pub open spec fn full_line_spec(c: DiffChangeView) -> Seq<char> {
    match c.tag {
        ChangeTag::Delete => "\u{1b}[31m- "@ + c.text + "\u{1b}[0m"@,
        ChangeTag::Insert => "\u{1b}[32m+ "@ + c.text + "\u{1b}[0m"@,
        ChangeTag::Equal => "  "@ + c.text,
    }
}

/// The whole rendered full diff, in change order.
pub open spec fn full_render_spec(cs: Seq<DiffChangeView>) -> Seq<char>
    decreases cs.len(),
{
    if cs.len() == 0 {
        Seq::<char>::empty()
    } else {
        full_render_spec(cs.drop_last()) + full_line_spec(cs.last())
    }
}

/// Renders the full colored diff of a change list, in order.
pub fn render_full_diff(changes: &Vec<DiffChange>) -> (r: String)
    ensures
        r@ == full_render_spec(change_views(changes@)),
{
    let mut v: Vec<char> = Vec::new();
    let mut i: usize = 0;
    proof {
        assert(change_views(changes@.subrange(0, 0)) =~= Seq::<DiffChangeView>::empty());
    }
    while i < changes.len()
        invariant
            i <= changes@.len(),
            v@ == full_render_spec(change_views(changes@.subrange(0, i as int))),
        decreases changes@.len() - i,
    {
        let ghost pre = change_views(changes@.subrange(0, i as int));
        let ghost post = change_views(changes@.subrange(0, i as int + 1));
        proof {
            assert(post =~= pre.push(changes@[i as int]@));
            assert(post.drop_last() =~= pre);
        }
        let c = &changes[i];
        match c.tag {
            ChangeTag::Delete => {
                push_chars(&mut v, "\u{1b}[31m- ");
                push_chars(&mut v, c.text.as_str());
                push_chars(&mut v, "\u{1b}[0m");
            },
            ChangeTag::Insert => {
                push_chars(&mut v, "\u{1b}[32m+ ");
                push_chars(&mut v, c.text.as_str());
                push_chars(&mut v, "\u{1b}[0m");
            },
            ChangeTag::Equal => {
                push_chars(&mut v, "  ");
                push_chars(&mut v, c.text.as_str());
            },
        }
        i = i + 1;
        proof {
            assert(v@ =~= full_render_spec(post));
        }
    }
    proof {
        assert(changes@.subrange(0, changes@.len() as int) =~= changes@);
    }
    string_from_chars(&v)
}

/// The full colored line diff of two texts.
pub fn diff(old_content: &str, new_content: &str) -> (r: String)
    ensures
        r@ == full_render_spec(changes_of(line_diff(old_content@, new_content@))),
{
    let changes = diff_changes(old_content, new_content);
    render_full_diff(&changes)
}

/// The folding state of the summary rendering: whether a change has been
/// seen yet, the up-to-five context lines buffered before the first change,
/// and the body rendered so far.
pub struct SummaryState {
    pub found_first_change: bool,
    pub pending: Seq<Seq<char>>,
    pub body: Seq<char>,
}

/// One buffered context line.
pub open spec fn pending_line_spec(text: Seq<char>) -> Seq<char> {
    "  "@ + text
}

/// The buffered context lines flushed into the body when the first change
/// arrives, each closed with a color reset.
pub open spec fn flush_pending_spec(pending: Seq<Seq<char>>) -> Seq<char>
    decreases pending.len(),
{
    if pending.len() == 0 {
        Seq::<char>::empty()
    } else {
        flush_pending_spec(pending.drop_last()) + pending.last() + "\u{1b}[0m"@
    }
}

/// How one change advances the summary fold.
pub open spec fn summary_step(st: SummaryState, c: DiffChangeView) -> SummaryState {
    match c.tag {
        ChangeTag::Equal => if !st.found_first_change {
            let appended = st.pending.push(pending_line_spec(c.text));
            SummaryState {
                found_first_change: false,
                pending: if appended.len() > 5 {
                    appended.drop_first()
                } else {
                    appended
                },
                body: st.body,
            }
        } else {
            SummaryState {
                found_first_change: true,
                pending: st.pending,
                body: st.body + "  "@ + c.text + "\u{1b}[0m"@,
            }
        },
        ChangeTag::Delete => SummaryState {
            found_first_change: true,
            pending: st.pending,
            body: (if !st.found_first_change {
                st.body + flush_pending_spec(st.pending)
            } else {
                st.body
            }) + "\u{1b}[31m- "@ + c.text + "\u{1b}[0m"@,
        },
        ChangeTag::Insert => SummaryState {
            found_first_change: true,
            pending: st.pending,
            body: (if !st.found_first_change {
                st.body + flush_pending_spec(st.pending)
            } else {
                st.body
            }) + "\u{1b}[32m+ "@ + c.text + "\u{1b}[0m"@,
        },
    }
}

/// The summary fold over a change list, from the empty state.
pub open spec fn summary_fold(cs: Seq<DiffChangeView>) -> SummaryState
    decreases cs.len(),
{
    if cs.len() == 0 {
        SummaryState {
            found_first_change: false,
            pending: Seq::<Seq<char>>::empty(),
            body: Seq::<char>::empty(),
        }
    } else {
        summary_step(summary_fold(cs.drop_last()), cs.last())
    }
}

/// The curtailment of a rendered body to at most `max_lines` lines; what
/// was cut is counted in a closing note.
pub open spec fn curtail_spec(body: Seq<char>, max_lines: nat) -> Seq<char> {
    let ls = lines_spec(body);
    if ls.len() <= max_lines {
        join_with(ls, '\n')
    } else {
        join_with(ls.take(max_lines as int), '\n') + "\u{1b}[0m\n(..."@ + decimal_chars(
            (ls.len() - max_lines) as nat,
        ) + " more lines)"@
    }
}

/// The whole summary of a change list: the changed region with up to five
/// leading context lines, curtailed to `max_lines` lines.
pub open spec fn summary_spec(cs: Seq<DiffChangeView>, max_lines: nat) -> Seq<char> {
    curtail_spec(summary_fold(cs).body, max_lines)
}

/// Renders the curtailed summary of a change list.
pub fn render_diff_summary(changes: &Vec<DiffChange>, max_lines: usize) -> (r: String)
    ensures
        r@ == summary_spec(change_views(changes@), max_lines as nat),
{
    let mut found_first_change = false;
    let mut pending: Vec<String> = Vec::new();
    let mut body: Vec<char> = Vec::new();
    let mut i: usize = 0;
    proof {
        assert(change_views(changes@.subrange(0, 0)) =~= Seq::<DiffChangeView>::empty());
        assert(string_views(pending@) =~= Seq::<Seq<char>>::empty());
    }
    while i < changes.len()
        invariant
            i <= changes@.len(),
            summary_fold(change_views(changes@.subrange(0, i as int))) == (SummaryState {
                found_first_change,
                pending: string_views(pending@),
                body: body@,
            }),
        decreases changes@.len() - i,
    {
        let ghost pre = change_views(changes@.subrange(0, i as int));
        let ghost post = change_views(changes@.subrange(0, i as int + 1));
        proof {
            assert(post =~= pre.push(changes@[i as int]@));
            assert(post.drop_last() =~= pre);
        }
        let c = &changes[i];
        match c.tag {
            ChangeTag::Equal => {
                if !found_first_change {
                    let mut line: Vec<char> = Vec::new();
                    push_chars(&mut line, "  ");
                    push_chars(&mut line, c.text.as_str());
                    let ghost ppre = pending@;
                    pending.push(string_from_chars(&line));
                    proof {
                        assert(string_views(pending@) =~= string_views(ppre).push(
                            pending_line_spec(c.text@),
                        ));
                    }
                    if pending.len() > 5 {
                        let ghost pmid = pending@;
                        pending.remove(0);
                        proof {
                            assert(string_views(pending@) =~= string_views(pmid).drop_first());
                        }
                    }
                } else {
                    push_chars(&mut body, "  ");
                    push_chars(&mut body, c.text.as_str());
                    push_chars(&mut body, "\u{1b}[0m");
                }
            },
            ChangeTag::Delete => {
                if !found_first_change {
                    found_first_change = true;
                    flush_pending(&mut body, &pending);
                }
                push_chars(&mut body, "\u{1b}[31m- ");
                push_chars(&mut body, c.text.as_str());
                push_chars(&mut body, "\u{1b}[0m");
            },
            ChangeTag::Insert => {
                if !found_first_change {
                    found_first_change = true;
                    flush_pending(&mut body, &pending);
                }
                push_chars(&mut body, "\u{1b}[32m+ ");
                push_chars(&mut body, c.text.as_str());
                push_chars(&mut body, "\u{1b}[0m");
            },
        }
        i = i + 1;
        proof {
            assert(summary_fold(post) == summary_step(summary_fold(pre), changes@[i as int - 1]@));
            assert(summary_fold(post).pending =~= string_views(pending@));
            assert(summary_fold(post).body =~= body@);
            assert(summary_fold(post) == (SummaryState {
                found_first_change,
                pending: string_views(pending@),
                body: body@,
            }));
        }
    }
    proof {
        assert(changes@.subrange(0, changes@.len() as int) =~= changes@);
    }
    let rendered = string_from_chars(&body);
    let ls = split_lines(rendered.as_str());
    if ls.len() <= max_lines {
        let ghost full = string_views(ls@);
        proof {
            assert(full.take(full.len() as int) =~= full);
        }
        join_strings(&ls, '\n')
    } else {
        let mut head: Vec<String> = Vec::new();
        let mut k: usize = 0;
        while k < max_lines
            invariant
                k <= max_lines,
                max_lines <= ls@.len(),
                head@ == ls@.subrange(0, k as int),
            decreases max_lines - k,
        {
            head.push(ls[k].clone());
            k = k + 1;
            proof {
                assert(head@ =~= ls@.subrange(0, k as int));
            }
        }
        proof {
            assert(string_views(head@) =~= string_views(ls@).take(max_lines as int));
        }
        let joined = join_strings(&head, '\n');
        let mut v: Vec<char> = Vec::new();
        push_chars(&mut v, joined.as_str());
        push_chars(&mut v, "\u{1b}[0m\n(...");
        let count = usize_decimal(ls.len() - max_lines);
        push_chars(&mut v, count.as_str());
        push_chars(&mut v, " more lines)");
        string_from_chars(&v)
    }
}

/// Flushes the buffered context lines into the body, each closed with a
/// color reset.
fn flush_pending(body: &mut Vec<char>, pending: &Vec<String>)
    ensures
        final(body)@ == old(body)@ + flush_pending_spec(string_views(pending@)),
{
    let mut i: usize = 0;
    proof {
        assert(flush_pending_spec(string_views(pending@).take(0)) =~= Seq::<char>::empty());
        assert(body@ =~= old(body)@ + flush_pending_spec(string_views(pending@).take(0)));
    }
    while i < pending.len()
        invariant
            i <= pending@.len(),
            body@ == old(body)@ + flush_pending_spec(string_views(pending@).take(i as int)),
        decreases pending@.len() - i,
    {
        let ghost pre = string_views(pending@).take(i as int);
        let ghost post = string_views(pending@).take(i as int + 1);
        proof {
            assert(string_views(pending@)[i as int] == pending@[i as int]@);
            assert(post =~= pre.push(pending@[i as int]@));
            assert(post.drop_last() =~= pre);
        }
        push_chars(body, pending[i].as_str());
        push_chars(body, "\u{1b}[0m");
        i = i + 1;
        proof {
            assert(body@ =~= old(body)@ + flush_pending_spec(post));
        }
    }
    proof {
        assert(string_views(pending@).take(pending@.len() as int) =~= string_views(pending@));
    }
}

/// The curtailed colored summary of the line diff of two texts: the changed
/// region with up to five leading context lines, at most `max_lines` lines,
/// with the number of cut lines noted.
pub fn diff_summary(old_content: &str, new_content: &str, max_lines: usize) -> (r: String)
    ensures
        r@ == summary_spec(changes_of(line_diff(old_content@, new_content@)), max_lines as nat),
{
    let changes = diff_changes(old_content, new_content);
    render_diff_summary(&changes, max_lines)
}

} // verus!
