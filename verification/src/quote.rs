//! Quoting text for the shell and for AppleScript string literals, and
//! reading it back.

use vstd::prelude::*;

use crate::text::{chars_of, push_char};

verus! {

/// Each character of `s` replaced by `f` of it, in order.
pub open spec fn map_concat(s: Seq<char>, f: spec_fn(char) -> Seq<char>) -> Seq<char>
    decreases s.len(),
{
    if s.len() == 0 {
        Seq::empty()
    } else {
        f(s[0]) + map_concat(s.drop_first(), f)
    }
}

/// Inside single quotes, a single quote is written `'\''`: close, escaped
/// quote, reopen.
pub open spec fn sq_piece(c: char) -> Seq<char> {
    if c == '\'' {
        seq!['\'', '\\', '\'', '\'']
    } else {
        seq![c]
    }
}

/// [`sq_piece`] as a function value.
pub open spec fn sq_map() -> spec_fn(char) -> Seq<char> {
    |c: char| sq_piece(c)
}

/// `s` as one POSIX shell word: in single quotes, with its single quotes
/// written `'\''`.
pub open spec fn shell_quote(s: Seq<char>) -> Seq<char> {
    seq!['\''] + map_concat(s, sq_map()) + seq!['\'']
}

/// Inside an AppleScript string literal, a backslash and a double quote
/// are each preceded by a backslash.
pub open spec fn as_piece(c: char) -> Seq<char> {
    if c == '\\' {
        seq!['\\', '\\']
    } else if c == '"' {
        seq!['\\', '"']
    } else {
        seq![c]
    }
}

/// [`as_piece`] as a function value.
pub open spec fn as_map() -> spec_fn(char) -> Seq<char> {
    |c: char| as_piece(c)
}

/// `s` escaped for the inside of an AppleScript string literal.
pub open spec fn applescript_escape(s: Seq<char>) -> Seq<char> {
    map_concat(s, as_map())
}

/// `c` in front of a read text, if there is one.
pub open spec fn prepend(c: char, r: Option<Seq<char>>) -> Option<Seq<char>> {
    match r {
        Some(t) => Some(seq![c] + t),
        None => None,
    }
}

/// The value of `s` read as exactly one shell word built only of
/// single-quoted parts and backslash escapes (`quoted`: whether reading
/// starts inside single quotes); `None` when `s` holds anything else, such
/// as an unquoted blank or `;`, or leaves a quote open.
pub open spec fn shell_word(s: Seq<char>, quoted: bool) -> Option<Seq<char>>
    decreases s.len(),
{
    if s.len() == 0 {
        if quoted { None } else { Some(Seq::empty()) }
    } else if quoted {
        if s[0] == '\'' {
            shell_word(s.drop_first(), false)
        } else {
            prepend(s[0], shell_word(s.drop_first(), true))
        }
    } else if s[0] == '\'' {
        shell_word(s.drop_first(), true)
    } else if s[0] == '\\' && s.len() >= 2 {
        prepend(s[1], shell_word(s.subrange(2, s.len() as int), false))
    } else {
        None
    }
}

/// The text an AppleScript string literal with this inside stands for;
/// `None` when an unescaped double quote would end the literal early or a
/// backslash escapes nothing.
pub open spec fn applescript_unescape(s: Seq<char>) -> Option<Seq<char>>
    decreases s.len(),
{
    if s.len() == 0 {
        Some(Seq::empty())
    } else if s[0] == '\\' {
        if s.len() >= 2 {
            prepend(s[1], applescript_unescape(s.subrange(2, s.len() as int)))
        } else {
            None
        }
    } else if s[0] == '"' {
        None
    } else {
        prepend(s[0], applescript_unescape(s.drop_first()))
    }
}

// ------------------------------------------------------------------------
// Lemmas
// ------------------------------------------------------------------------

pub proof fn lemma_map_concat_append(a: Seq<char>, b: Seq<char>, f: spec_fn(char) -> Seq<char>)
    ensures
        map_concat(a + b, f) == map_concat(a, f) + map_concat(b, f),
    decreases a.len(),
{
    if a.len() == 0 {
        assert(a + b =~= b);
        assert(map_concat(a, f) + map_concat(b, f) =~= map_concat(b, f));
    } else {
        lemma_map_concat_append(a.drop_first(), b, f);
        assert((a + b).drop_first() =~= a.drop_first() + b);
        assert((a + b)[0] == a[0]);
        assert(f(a[0]) + (map_concat(a.drop_first(), f) + map_concat(b, f)) =~= (f(a[0])
            + map_concat(a.drop_first(), f)) + map_concat(b, f));
    }
}

proof fn lemma_map_concat_take(s: Seq<char>, i: int, f: spec_fn(char) -> Seq<char>)
    requires
        0 <= i < s.len(),
    ensures
        map_concat(s.take(i + 1), f) == map_concat(s.take(i), f) + f(s[i]),
{
    assert(s.take(i + 1) =~= s.take(i) + seq![s[i]]);
    lemma_map_concat_append(s.take(i), seq![s[i]], f);
    let one = seq![s[i]];
    assert(one.drop_first() =~= Seq::<char>::empty());
    assert(map_concat(Seq::<char>::empty(), f) =~= Seq::<char>::empty());
    assert(map_concat(one, f) == f(one[0]) + map_concat(one.drop_first(), f));
    assert(map_concat(one, f) =~= f(s[i]));
}

proof fn lemma_shell_word_quoted(w: Seq<char>)
    ensures
        shell_word(map_concat(w, sq_map()) + seq!['\''], true) == Some(w),
    decreases w.len(),
{
    let f = sq_map();
    let q = seq!['\''];
    if w.len() == 0 {
        assert(w =~= Seq::<char>::empty());
        assert(map_concat(w, f) =~= Seq::<char>::empty());
        let s = map_concat(w, f) + q;
        assert(s =~= q);
        assert(s.drop_first() =~= Seq::<char>::empty());
        assert(shell_word(s, true) == shell_word(s.drop_first(), false));
    } else {
        let rest = w.drop_first();
        lemma_shell_word_quoted(rest);
        let x = map_concat(rest, f) + q;
        let s = map_concat(w, f) + q;
        assert(map_concat(w, f) == f(w[0]) + map_concat(rest, f));
        assert(f(w[0]) == sq_piece(w[0]));
        assert(s =~= sq_piece(w[0]) + x);
        if w[0] == '\'' {
            let s1 = s.drop_first();
            assert(s1 =~= seq!['\\', '\'', '\''] + x);
            let s2 = s1.subrange(2, s1.len() as int);
            assert(s2 =~= q + x);
            assert(s2.drop_first() =~= x);
            assert(shell_word(s2, false) == shell_word(x, true));
            assert(shell_word(s1, false) == prepend('\'', shell_word(s2, false)));
            assert(shell_word(s, true) == shell_word(s1, false));
            assert(seq!['\''] + rest =~= w);
        } else {
            assert(s[0] == w[0]);
            assert(s.drop_first() =~= x);
            assert(shell_word(s, true) == prepend(w[0], shell_word(x, true)));
            assert(seq![w[0]] + rest =~= w);
        }
    }
}

/// A shell-quoted text reads back, as one shell word, as that text.
pub proof fn lemma_shell_quote_reads_back(w: Seq<char>)
    ensures
        shell_word(shell_quote(w), false) == Some(w),
{
    let f = sq_map();
    lemma_shell_word_quoted(w);
    assert(shell_quote(w).drop_first() =~= map_concat(w, f) + seq!['\'']);
}

/// An AppleScript-escaped text reads back as that text.
pub proof fn lemma_applescript_reads_back(w: Seq<char>)
    ensures
        applescript_unescape(applescript_escape(w)) == Some(w),
    decreases w.len(),
{
    let f = as_map();
    if w.len() > 0 {
        let rest = w.drop_first();
        lemma_applescript_reads_back(rest);
        let x = applescript_escape(rest);
        let s = applescript_escape(w);
        assert(s =~= f(w[0]) + x);
        if w[0] == '\\' || w[0] == '"' {
            assert(s.subrange(2, s.len() as int) =~= x);
        } else {
            assert(s.drop_first() =~= x);
        }
        assert(seq![w[0]] + rest =~= w);
    }
}

// ------------------------------------------------------------------------
// Executable
// ------------------------------------------------------------------------

/// Appends `s` quoted as one shell word.
pub fn push_shell_quoted(out: &mut String, s: &str)
    ensures
        final(out)@ == old(out)@ + shell_quote(s@),
{
    let ghost f = sq_map();
    let v = chars_of(s);
    push_char(out, '\'');
    let ghost start = out@;
    let mut i: usize = 0;
    assert(v@.take(0) =~= Seq::<char>::empty());
    while i < v.len()
        invariant
            i <= v.len(),
            f == sq_map(),
            out@ == start + map_concat(v@.take(i as int), f),
        decreases v.len() - i,
    {
        proof {
            lemma_map_concat_take(v@, i as int, f);
        }
        let c = v[i];
        if c == '\'' {
            push_char(out, '\'');
            push_char(out, '\\');
            push_char(out, '\'');
            push_char(out, '\'');
        } else {
            push_char(out, c);
        }
        assert(out@ =~= start + map_concat(v@.take(i + 1), f));
        i = i + 1;
    }
    push_char(out, '\'');
    assert(v@.take(v.len() as int) =~= s@);
    assert(out@ =~= old(out)@ + shell_quote(s@));
}

/// `s` escaped for the inside of an AppleScript string literal.
pub fn applescript_escaped(s: &str) -> (r: String)
    ensures
        r@ == applescript_escape(s@),
{
    let ghost f = as_map();
    let v = chars_of(s);
    let mut out = String::new();
    let mut i: usize = 0;
    assert(v@.take(0) =~= Seq::<char>::empty());
    while i < v.len()
        invariant
            i <= v.len(),
            f == as_map(),
            out@ == map_concat(v@.take(i as int), f),
        decreases v.len() - i,
    {
        proof {
            lemma_map_concat_take(v@, i as int, f);
        }
        let c = v[i];
        if c == '\\' || c == '"' {
            push_char(&mut out, '\\');
        }
        push_char(&mut out, c);
        assert(out@ =~= map_concat(v@.take(i + 1), f));
        i = i + 1;
    }
    assert(v@.take(v.len() as int) =~= s@);
    out
}

} // verus!
