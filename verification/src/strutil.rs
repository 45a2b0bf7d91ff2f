//! Executable string helpers with exact character-sequence contracts.
//!
//! Text manipulation is done on `Vec<char>` so that contracts can speak
//! directly about sequences of characters; conversion to and from `String`
//! happens at the edges of each function.

use vstd::prelude::*;

verus! {

/// Character-sequence equality of two string slices.
pub fn str_eqs(a: &str, b: &str) -> (r: bool)
    ensures
        r == (a@ == b@),
{
    let oa: String = a.to_owned();
    let ob: String = b.to_owned();
    oa == ob
}

/// Relies on std's `Iterator::collect` for `String`: collecting characters
/// yields the string with exactly those characters in order.
#[verifier::external_body]
pub fn string_from_chars(v: &Vec<char>) -> (s: String)
    ensures
        s@ == v@,
{
    v.iter().collect()
}

/// Relies on std's `str::chars`: the iterator yields exactly the characters
/// of the string in order.
#[verifier::external_body]
pub fn chars_of(s: &str) -> (v: Vec<char>)
    ensures
        v@ == s@,
{
    s.chars().collect()
}

/// Appends every character of `piece` to `out`.
pub fn push_chars(out: &mut Vec<char>, piece: &str)
    ensures
        final(out)@ == old(out)@ + piece@,
{
    let cs = chars_of(piece);
    let mut i: usize = 0;
    while i < cs.len()
        invariant
            i <= cs@.len(),
            cs@ == piece@,
            out@ == old(out)@ + cs@.subrange(0, i as int),
        decreases cs@.len() - i,
    {
        out.push(cs[i]);
        i = i + 1;
        proof {
            assert(out@ =~= old(out)@ + cs@.subrange(0, i as int));
        }
    }
    proof {
        assert(out@ =~= old(out)@ + piece@);
    }
}

/// Appends every character of `piece` to `out`.
pub fn push_char_seq(out: &mut Vec<char>, piece: &Vec<char>)
    ensures
        final(out)@ == old(out)@ + piece@,
{
    let mut i: usize = 0;
    while i < piece.len()
        invariant
            i <= piece@.len(),
            out@ == old(out)@ + piece@.subrange(0, i as int),
        decreases piece@.len() - i,
    {
        out.push(piece[i]);
        i = i + 1;
        proof {
            assert(out@ =~= old(out)@ + piece@.subrange(0, i as int));
        }
    }
    proof {
        assert(out@ =~= old(out)@ + piece@);
    }
}

/// The character for one decimal digit.
pub open spec fn digit_char(d: nat) -> char {
    if d == 0 { '0' }
    else if d == 1 { '1' }
    else if d == 2 { '2' }
    else if d == 3 { '3' }
    else if d == 4 { '4' }
    else if d == 5 { '5' }
    else if d == 6 { '6' }
    else if d == 7 { '7' }
    else if d == 8 { '8' }
    else { '9' }
}

/// The decimal digit characters of `n`, most significant first.
pub open spec fn decimal_chars(n: nat) -> Seq<char>
    decreases n,
{
    if n < 10 {
        seq![digit_char(n)]
    } else {
        decimal_chars(n / 10) + seq![digit_char(n % 10)]
    }
}

fn digit_char_exec(d: u64) -> (c: char)
    requires
        d < 10,
    ensures
        c == digit_char(d as nat),
{
    match d {
        0 => '0',
        1 => '1',
        2 => '2',
        3 => '3',
        4 => '4',
        5 => '5',
        6 => '6',
        7 => '7',
        8 => '8',
        _ => '9',
    }
}

/// The decimal rendering of `n`, as characters.
pub fn u64_decimal_chars(n: u64) -> (v: Vec<char>)
    ensures
        v@ == decimal_chars(n as nat),
{
    let mut digits: Vec<char> = Vec::new();
    let mut m: u64 = n;
    loop
        invariant_except_break
            decimal_chars(n as nat) == decimal_chars(m as nat) + digits@,
        ensures
            digits@ == decimal_chars(n as nat),
        decreases m,
    {
        let d = m % 10;
        digits.insert(0, digit_char_exec(d));
        if m < 10 {
            proof {
                assert(decimal_chars(m as nat) =~= seq![digit_char((m % 10) as nat)]);
                assert(digits@ =~= decimal_chars(n as nat));
            }
            break;
        }
        proof {
            assert(decimal_chars(m as nat) =~= decimal_chars((m / 10) as nat) + seq![
                digit_char((m % 10) as nat),
            ]);
            assert(decimal_chars(n as nat) =~= decimal_chars((m / 10) as nat) + digits@);
        }
        m = m / 10;
    }
    digits
}

/// The decimal rendering of `n`, as a string.
pub fn u64_decimal(n: u64) -> (s: String)
    ensures
        s@ == decimal_chars(n as nat),
{
    let v = u64_decimal_chars(n);
    string_from_chars(&v)
}

/// The decimal rendering of `n`, as a string.
pub fn usize_decimal(n: usize) -> (s: String)
    ensures
        s@ == decimal_chars(n as nat),
{
    u64_decimal(n as u64)
}

/// ASCII whitespace, as the token splitting in this library understands it.
pub open spec fn is_space_char(c: char) -> bool {
    c == ' ' || c == '\t' || c == '\n' || c == '\r'
}

fn is_space_exec(c: char) -> (r: bool)
    ensures
        r == is_space_char(c),
{
    c == ' ' || c == '\t' || c == '\n' || c == '\r'
}

/// `s` without its leading whitespace characters.
pub open spec fn skip_spaces(s: Seq<char>) -> Seq<char>
    decreases s.len(),
{
    if s.len() == 0 {
        s
    } else if is_space_char(s[0]) {
        skip_spaces(s.drop_first())
    } else {
        s
    }
}

/// The longest whitespace-free prefix of `s`.
pub open spec fn take_until_space(s: Seq<char>) -> Seq<char>
    decreases s.len(),
{
    if s.len() == 0 || is_space_char(s[0]) {
        Seq::<char>::empty()
    } else {
        seq![s[0]] + take_until_space(s.drop_first())
    }
}

/// The first whitespace-separated token of `s`; empty when `s` holds none.
pub open spec fn first_token_spec(s: Seq<char>) -> Seq<char> {
    take_until_space(skip_spaces(s))
}

/// The first whitespace-separated token of `s`.
pub fn first_token(s: &str) -> (r: String)
    ensures
        r@ == first_token_spec(s@),
{
    let cs = chars_of(s);
    let n = cs.len();
    let mut i: usize = 0;
    proof {
        assert(s@.skip(0) =~= s@);
    }
    while i < n && is_space_exec(cs[i])
        invariant
            i <= n,
            n == cs@.len(),
            cs@ == s@,
            skip_spaces(s@) == skip_spaces(s@.skip(i as int)),
        decreases n - i,
    {
        proof {
            let t = s@.skip(i as int);
            assert(t.len() > 0 && t[0] == s@[i as int]);
            assert(t.drop_first() =~= s@.skip(i as int + 1));
        }
        i = i + 1;
    }
    proof {
        let t = s@.skip(i as int);
        if i < n {
            assert(t[0] == s@[i as int]);
            assert(skip_spaces(t) == t);
        } else {
            assert(t.len() == 0);
        }
    }
    let start = i;
    let mut j: usize = start;
    let mut token: Vec<char> = Vec::new();
    while j < n && !is_space_exec(cs[j])
        invariant
            start <= j <= n,
            n == cs@.len(),
            cs@ == s@,
            token@ == s@.subrange(start as int, j as int),
            first_token_spec(s@) == token@ + take_until_space(s@.skip(j as int)),
        decreases n - j,
    {
        proof {
            let t = s@.skip(j as int);
            assert(t.len() > 0 && t[0] == s@[j as int]);
            assert(t.drop_first() =~= s@.skip(j as int + 1));
            assert(take_until_space(t) == seq![t[0]] + take_until_space(t.drop_first()));
        }
        token.push(cs[j]);
        j = j + 1;
        proof {
            assert(token@ =~= s@.subrange(start as int, j as int));
            assert(first_token_spec(s@) =~= token@ + take_until_space(s@.skip(j as int)));
        }
    }
    proof {
        let t = s@.skip(j as int);
        if j < n {
            assert(t[0] == s@[j as int]);
            assert(take_until_space(t) =~= Seq::<char>::empty());
        } else {
            assert(t.len() == 0);
        }
        assert(first_token_spec(s@) =~= token@);
    }
    string_from_chars(&token)
}

/// `s` split at every occurrence of `sep`; always at least one piece, and
/// empty pieces are kept.
pub open spec fn split_on(s: Seq<char>, sep: char) -> Seq<Seq<char>>
    decreases s.len(),
{
    if s.len() == 0 {
        seq![Seq::<char>::empty()]
    } else {
        let prev = split_on(s.drop_last(), sep);
        if s.last() == sep {
            prev + seq![Seq::<char>::empty()]
        } else {
            prev.update(prev.len() - 1, prev.last().push(s.last()))
        }
    }
}

pub proof fn lemma_split_on_len(s: Seq<char>, sep: char)
    ensures
        split_on(s, sep).len() >= 1,
    decreases s.len(),
{
    if s.len() > 0 {
        lemma_split_on_len(s.drop_last(), sep);
    }
}

/// The lines of `s`: pieces split at `'\n'`, one trailing line break not
/// opening a final empty line, and no line at all in an empty text.
pub open spec fn lines_spec(s: Seq<char>) -> Seq<Seq<char>> {
    if s.len() == 0 {
        Seq::<Seq<char>>::empty()
    } else if s.last() == '\n' {
        split_on(s.drop_last(), '\n')
    } else {
        split_on(s, '\n')
    }
}

/// The views of a vector of strings.
pub open spec fn string_views(v: Seq<String>) -> Seq<Seq<char>> {
    v.map_values(|p: String| p@)
}

/// Splits `s` at every occurrence of `sep`, keeping empty pieces.
pub fn split_chars(s: &str, sep: char) -> (r: Vec<String>)
    ensures
        string_views(r@) == split_on(s@, sep),
{
    let cs = chars_of(s);
    let n = cs.len();
    let mut parts: Vec<String> = Vec::new();
    let mut cur: Vec<char> = Vec::new();
    let mut i: usize = 0;
    while i < n
        invariant
            i <= n,
            n == cs@.len(),
            cs@ == s@,
            string_views(parts@) + seq![cur@] == split_on(s@.subrange(0, i as int), sep),
        decreases n - i,
    {
        let c = cs[i];
        proof {
            let pre = s@.subrange(0, i as int);
            let post = s@.subrange(0, i as int + 1);
            assert(post.drop_last() =~= pre);
            assert(post.last() == s@[i as int]);
            lemma_split_on_len(pre, sep);
        }
        if c == sep {
            let done = string_from_chars(&cur);
            parts.push(done);
            cur = Vec::new();
        } else {
            cur.push(c);
        }
        i = i + 1;
        proof {
            let pre = s@.subrange(0, i as int - 1);
            let post = s@.subrange(0, i as int);
            if c == sep {
                assert(string_views(parts@) + seq![cur@] =~= split_on(post, sep));
            } else {
                assert((string_views(parts@) + seq![cur@]) =~= split_on(pre, sep).update(
                    split_on(pre, sep).len() - 1,
                    split_on(pre, sep).last().push(c),
                ));
                assert(string_views(parts@) + seq![cur@] =~= split_on(post, sep));
            }
        }
    }
    let done = string_from_chars(&cur);
    parts.push(done);
    proof {
        assert(s@.subrange(0, n as int) =~= s@);
        assert(string_views(parts@) =~= split_on(s@, sep));
    }
    parts
}

/// The lines of `s`, as [`lines_spec`] describes them.
pub fn split_lines(s: &str) -> (r: Vec<String>)
    ensures
        string_views(r@) == lines_spec(s@),
{
    let cs = chars_of(s);
    if cs.len() == 0 {
        let r: Vec<String> = Vec::new();
        proof {
            assert(string_views(r@) =~= lines_spec(s@));
        }
        return r;
    }
    if cs[cs.len() - 1] == '\n' {
        let mut head = cs;
        head.pop();
        let trimmed = string_from_chars(&head);
        proof {
            assert(head@ =~= s@.drop_last());
        }
        split_chars(trimmed.as_str(), '\n')
    } else {
        split_chars(s, '\n')
    }
}

/// `parts` joined with `sep` between consecutive pieces.
pub open spec fn join_with(parts: Seq<Seq<char>>, sep: char) -> Seq<char>
    decreases parts.len(),
{
    if parts.len() == 0 {
        Seq::<char>::empty()
    } else if parts.len() == 1 {
        parts[0]
    } else {
        join_with(parts.drop_last(), sep) + seq![sep] + parts.last()
    }
}

/// Joins `parts` with `sep` between consecutive pieces.
pub fn join_strings(parts: &Vec<String>, sep: char) -> (r: String)
    ensures
        r@ == join_with(string_views(parts@), sep),
{
    let mut out: Vec<char> = Vec::new();
    let mut i: usize = 0;
    while i < parts.len()
        invariant
            i <= parts@.len(),
            out@ == join_with(string_views(parts@.subrange(0, i as int)), sep),
        decreases parts@.len() - i,
    {
        if i > 0 {
            out.push(sep);
        }
        push_chars(&mut out, parts[i].as_str());
        i = i + 1;
        proof {
            let pre = string_views(parts@.subrange(0, i as int - 1));
            let post = string_views(parts@.subrange(0, i as int));
            assert(post.drop_last() =~= pre);
            assert(post.last() == parts@[i as int - 1]@);
            if i == 1 {
                assert(out@ =~= join_with(post, sep));
            } else {
                assert(out@ =~= join_with(pre, sep) + seq![sep] + post.last());
            }
        }
    }
    proof {
        assert(parts@.subrange(0, parts@.len() as int) =~= parts@);
    }
    string_from_chars(&out)
}

/// `piece` repeated `n` times.
pub open spec fn repeat_seq(piece: Seq<char>, n: nat) -> Seq<char>
    decreases n,
{
    if n == 0 {
        Seq::<char>::empty()
    } else {
        repeat_seq(piece, (n - 1) as nat) + piece
    }
}

/// `piece` repeated `n` times.
pub fn repeat_str(piece: &str, n: usize) -> (r: Vec<char>)
    ensures
        r@ == repeat_seq(piece@, n as nat),
{
    let mut out: Vec<char> = Vec::new();
    let mut i: usize = 0;
    while i < n
        invariant
            i <= n,
            out@ == repeat_seq(piece@, i as nat),
        decreases n - i,
    {
        push_chars(&mut out, piece);
        i = i + 1;
    }
    out
}

/// Whether the name denotes a hidden file: it starts with `'.'`.
pub open spec fn is_hidden_name_spec(s: Seq<char>) -> bool {
    s.len() > 0 && s[0] == '.'
}

/// Whether the name denotes a hidden file: it starts with `'.'`.
pub fn is_hidden_name(s: &str) -> (r: bool)
    ensures
        r == is_hidden_name_spec(s@),
{
    let cs = chars_of(s);
    cs.len() > 0 && cs[0] == '.'
}

} // verus!
