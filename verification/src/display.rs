//! Terminal-facing rendering decisions: which messages are shown under
//! which title, how text is wrapped to the terminal width, and how message
//! boxes and snippets are laid out. The printing itself is left to the
//! surrounding application.

use vstd::prelude::*;
use crate::message::{Message, MessageView};
use crate::strutil::{chars_of, push_chars, push_char_seq, string_from_chars, string_views,
    lines_spec, split_lines, join_with, join_strings, decimal_chars, usize_decimal};

verus! {

/// The box title under which a message is displayed: the operator's
/// messages under `You`, the model's under `Deputy`; tool traffic is not
/// boxed.
pub open spec fn title_spec(m: MessageView) -> Option<Seq<char>> {
    match m {
        MessageView::User { .. } => Option::Some("You"@),
        MessageView::Model { .. } => Option::Some("Deputy"@),
        _ => Option::None,
    }
}

/// The box title under which a message is displayed, if any.
pub fn title_for(m: &Message) -> (r: Option<&'static str>)
    ensures
        match r {
            Option::Some(t) => title_spec(m@) == Option::Some(t@),
            Option::None => title_spec(m@) is None,
        },
{
    match m {
        Message::User(_) => Option::Some("You"),
        Message::Model(_) => Option::Some("Deputy"),
        _ => Option::None,
    }
}

/// Renders the first ten lines of a text, noting how many lines were cut.
pub open spec fn snippet_spec(text: Seq<char>) -> Seq<char> {
    let ls = lines_spec(text);
    if ls.len() <= 10 {
        join_with(ls, '\n')
    } else {
        join_with(ls.take(10), '\n') + "\n... ("@ + decimal_chars((ls.len() - 10) as nat)
            + " more lines)"@
    }
}

/// Renders the first ten lines of a text, noting how many lines were cut.
pub fn snippet_text(text: &str) -> (r: String)
    ensures
        r@ == snippet_spec(text@),
{
    let ls = split_lines(text);
    if ls.len() <= 10 {
        let ghost full = string_views(ls@);
        proof {
            assert(full.take(full.len() as int) =~= full);
        }
        join_strings(&ls, '\n')
    } else {
        let mut head: Vec<String> = Vec::new();
        let mut k: usize = 0;
        while k < 10
            invariant
                k <= 10,
                10 <= ls@.len(),
                head@ == ls@.subrange(0, k as int),
            decreases 10 - k,
        {
            head.push(ls[k].clone());
            k = k + 1;
            proof {
                assert(head@ =~= ls@.subrange(0, k as int));
            }
        }
        proof {
            assert(string_views(head@) =~= string_views(ls@).take(10));
        }
        let joined = join_strings(&head, '\n');
        let mut v: Vec<char> = Vec::new();
        push_chars(&mut v, joined.as_str());
        push_chars(&mut v, "\n... (");
        let count = usize_decimal(ls.len() - 10);
        push_chars(&mut v, count.as_str());
        push_chars(&mut v, " more lines)");
        string_from_chars(&v)
    }
}

/// Lays text out for a terminal of a fixed width.
pub struct DisplayManager {
    terminal_width: usize,
}

impl DisplayManager {
    /// The width this manager lays text out for.
    pub closed spec fn width(self) -> usize {
        self.terminal_width
    }

    /// A manager for the given terminal width; measuring the terminal is
    /// the caller's job.
    pub fn new(terminal_width: usize) -> (r: Self)
        ensures
            r.width() == terminal_width,
    {
        DisplayManager { terminal_width }
    }

    /// The width left for box content: the terminal width minus the frame.
    pub fn content_width(&self) -> (r: usize)
        ensures
            r == (if self.width() >= 4 {
                self.width() - 4
            } else {
                0
            }),
    {
        if self.terminal_width >= 4 {
            self.terminal_width - 4
        } else {
            0
        }
    }

    /// Wraps text to the given width: lines that fit pass through, longer
    /// lines are refilled word by word, and a word wider than the whole
    /// width is cut into width-sized pieces. Every produced line fits; text
    /// whose lines all fit already passes through unchanged.
    pub fn wrap_text(&self, text: &str, width: usize) -> (r: Vec<String>)
        requires
            width >= 1,
        ensures
            forall|j: int| 0 <= j < r@.len() ==> (#[trigger] r@[j])@.len() <= width,
            (forall|j: int|
                0 <= j < lines_spec(text@).len() ==> (#[trigger] lines_spec(text@)[j]).len()
                    <= width) ==> string_views(r@) == lines_spec(text@),
    {
        let lines = split_lines(text);
        let ghost lv = string_views(lines@);
        let mut out: Vec<String> = Vec::new();
        let mut i: usize = 0;
        proof {
            assert(lv.take(0) =~= Seq::<Seq<char>>::empty());
            assert(string_views(out@) =~= lv.take(0));
        }
        while i < lines.len()
            invariant
                width >= 1,
                i <= lines@.len(),
                lv == string_views(lines@),
                lv == lines_spec(text@),
                forall|j: int| 0 <= j < out@.len() ==> (#[trigger] out@[j])@.len() <= width,
                (forall|j: int| 0 <= j < lv.len() ==> (#[trigger] lv[j]).len() <= width)
                    ==> string_views(out@) == lv.take(i as int),
            decreases lines@.len() - i,
        {
            let cs = chars_of(lines[i].as_str());
            proof {
                assert(string_views(lines@)[i as int] == lines@[i as int]@);
            }
            if cs.len() <= width {
                let ghost opre = out@;
                out.push(lines[i].clone());
                proof {
                    if forall|j: int| 0 <= j < lv.len() ==> (#[trigger] lv[j]).len() <= width {
                        assert(string_views(out@) =~= lv.take(i as int + 1));
                    }
                }
            } else {
                let words = split_words(&cs);
                let mut current: Vec<char> = Vec::new();
                let mut w: usize = 0;
                while w < words.len()
                    invariant
                        width >= 1,
                        w <= words@.len(),
                        current@.len() <= width,
                        forall|j: int| 0 <= j < out@.len() ==> (#[trigger] out@[j])@.len() <= width,
                    decreases words@.len() - w,
                {
                    let word = &words[w];
                    if word.len() > width {
                        if current.len() > 0 {
                            out.push(string_from_chars(&current));
                            current = Vec::new();
                        }
                        let mut k: usize = 0;
                        while k < word.len()
                            invariant
                                width >= 1,
                                k <= word@.len(),
                                forall|j: int|
                                    0 <= j < out@.len() ==> (#[trigger] out@[j])@.len() <= width,
                            decreases word@.len() - k,
                        {
                            let end = if word.len() - k < width {
                                word.len()
                            } else {
                                k + width
                            };
                            let mut piece: Vec<char> = Vec::new();
                            let mut t: usize = k;
                            while t < end
                                invariant
                                    k <= t <= end,
                                    end <= word@.len(),
                                    end - k <= width,
                                    piece@.len() == t - k,
                                decreases end - t,
                            {
                                piece.push(word[t]);
                                t = t + 1;
                            }
                            out.push(string_from_chars(&piece));
                            k = end;
                        }
                    } else {
                        let room = width - current.len();
                        if word.len() < room {
                            if current.len() > 0 {
                                current.push(' ');
                            }
                            push_char_seq(&mut current, word);
                        } else {
                            if current.len() > 0 {
                                out.push(string_from_chars(&current));
                            }
                            current = Vec::new();
                            push_char_seq(&mut current, word);
                        }
                    }
                    w = w + 1;
                }
                if current.len() > 0 {
                    out.push(string_from_chars(&current));
                }
                proof {
                    assert(lv[i as int].len() > width);
                }
            }
            i = i + 1;
        }
        proof {
            if forall|j: int| 0 <= j < lv.len() ==> (#[trigger] lv[j]).len() <= width {
                assert(lv.take(lines@.len() as int) =~= lv);
            }
        }
        out
    }

    /// The lines of one message box: the title bar, each wrapped content
    /// line behind the frame, and the closing bar. The first line's leading
    /// break separates boxes on screen.
    pub fn render_message_box(&self, title: &str, wrapped: &Vec<String>) -> (r: Vec<String>)
        ensures
            r@.len() == wrapped@.len() + 2,
            r@[0]@ == "\n\u{250c}\u{2500} "@ + title@,
            forall|j: int|
                0 <= j < wrapped@.len() ==> r@[j + 1]@ == "\u{2502} "@ + (
                #[trigger] wrapped@[j])@,
            r@[r@.len() - 1]@ == "\u{2514}\u{2500}"@,
    {
        let mut r: Vec<String> = Vec::new();
        let mut head: Vec<char> = Vec::new();
        push_chars(&mut head, "\n\u{250c}\u{2500} ");
        push_chars(&mut head, title);
        r.push(string_from_chars(&head));
        let mut i: usize = 0;
        while i < wrapped.len()
            invariant
                i <= wrapped@.len(),
                r@.len() == i + 1,
                r@[0]@ == "\n\u{250c}\u{2500} "@ + title@,
                forall|j: int|
                    0 <= j < i ==> r@[j + 1]@ == "\u{2502} "@ + (#[trigger] wrapped@[j])@,
            decreases wrapped@.len() - i,
        {
            let mut line: Vec<char> = Vec::new();
            push_chars(&mut line, "\u{2502} ");
            push_chars(&mut line, wrapped[i].as_str());
            r.push(string_from_chars(&line));
            i = i + 1;
        }
        r.push("\u{2514}\u{2500}".to_owned());
        r
    }
}

/// The whitespace-separated words of a line, in order.
fn split_words(cs: &Vec<char>) -> (ws: Vec<Vec<char>>) {
    let mut ws: Vec<Vec<char>> = Vec::new();
    let mut cur: Vec<char> = Vec::new();
    let mut i: usize = 0;
    while i < cs.len()
        decreases cs@.len() - i,
    {
        let c = cs[i];
        if c == ' ' || c == '\t' || c == '\r' || c == '\n' {
            if cur.len() > 0 {
                ws.push(cur);
                cur = Vec::new();
            }
        } else {
            cur.push(c);
        }
        i = i + 1;
    }
    if cur.len() > 0 {
        ws.push(cur);
    }
    ws
}

} // verus!
