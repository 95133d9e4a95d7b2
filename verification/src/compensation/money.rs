//! Money amounts written as text, such as "$1,234.56": the text a number is read from.

use vstd::prelude::*;
use crate::text::{chars_of, string_of};

verus! {

/// The text with every dollar sign and thousands separator removed.
pub open spec fn strip_currency_marks(s: Seq<char>) -> Seq<char>
    decreases s.len(),
{
    if s.len() == 0 {
        s
    } else if s.last() == '$' || s.last() == ',' {
        strip_currency_marks(s.drop_last())
    } else {
        strip_currency_marks(s.drop_last()).push(s.last())
    }
}

/// Whether a character is white space (the Unicode `White_Space` property, as
/// `char::is_whitespace` decides it).
pub open spec fn is_space(c: char) -> bool {
    ||| ('\u{9}' <= c && c <= '\u{d}')
    ||| c == ' '
    ||| c == '\u{85}'
    ||| c == '\u{a0}'
    ||| c == '\u{1680}'
    ||| ('\u{2000}' <= c && c <= '\u{200a}')
    ||| c == '\u{2028}'
    ||| c == '\u{2029}'
    ||| c == '\u{202f}'
    ||| c == '\u{205f}'
    ||| c == '\u{3000}'
}

fn space(c: char) -> (b: bool)
    ensures
        b == is_space(c),
{
    ('\u{9}' <= c && c <= '\u{d}') || c == ' ' || c == '\u{85}' || c == '\u{a0}' || c == '\u{1680}'
        || ('\u{2000}' <= c && c <= '\u{200a}') || c == '\u{2028}' || c == '\u{2029}'
        || c == '\u{202f}' || c == '\u{205f}' || c == '\u{3000}'
}

/// The number of white-space characters at the start of the text.
pub open spec fn leading_space(s: Seq<char>) -> nat
    decreases s.len(),
{
    if s.len() > 0 && is_space(s[0]) {
        1 + leading_space(s.drop_first())
    } else {
        0
    }
}

/// The number of white-space characters at the end of the text.
pub open spec fn trailing_space(s: Seq<char>) -> nat
    decreases s.len(),
{
    if s.len() > 0 && is_space(s.last()) {
        1 + trailing_space(s.drop_last())
    } else {
        0
    }
}

/// The text without white space at either end.
pub open spec fn trim(s: Seq<char>) -> Seq<char> {
    let a = s.skip(leading_space(s) as int);
    a.take(a.len() - trailing_space(a))
}

/// The text a money amount is read as a number from: every dollar sign and
/// thousands separator removed, then surrounding white space trimmed.
pub open spec fn currency_text(s: Seq<char>) -> Seq<char> {
    trim(strip_currency_marks(s))
}

proof fn lemma_strip_idempotent(s: Seq<char>)
    ensures
        strip_currency_marks(strip_currency_marks(s)) == strip_currency_marks(s),
    decreases s.len(),
{
    if s.len() > 0 {
        lemma_strip_idempotent(s.drop_last());
        let rest = strip_currency_marks(s.drop_last());
        if !(s.last() == '$' || s.last() == ',') {
            assert(rest.push(s.last()).drop_last() =~= rest);
        }
    }
}

/// Dollar signs and separators never change an amount: a money text and the
/// text without them are read from the same number text.
pub proof fn lemma_currency_marks_ignored(s: Seq<char>)
    ensures
        currency_text(strip_currency_marks(s)) == currency_text(s),
{
    lemma_strip_idempotent(s);
}

fn strip_marks(v: &Vec<char>) -> (w: Vec<char>)
    ensures
        w@ == strip_currency_marks(v@),
{
    let mut w: Vec<char> = Vec::new();
    let mut i: usize = 0;
    while i < v.len()
        invariant
            i <= v@.len(),
            w@ == strip_currency_marks(v@.take(i as int)),
        decreases v.len() - i,
    {
        assert(v@.take(i + 1).drop_last() =~= v@.take(i as int));
        if v[i] != '$' && v[i] != ',' {
            w.push(v[i]);
        }
        i = i + 1;
    }
    assert(v@.take(v@.len() as int) =~= v@);
    w
}

fn trimmed(w: &Vec<char>) -> (t: Vec<char>)
    ensures
        t@ == trim(w@),
{
    let ghost ws = w@;
    let mut a: usize = 0;
    assert(ws.skip(0) =~= ws);
    while a < w.len() && space(w[a])
        invariant
            ws == w@,
            a <= w@.len(),
            leading_space(ws) == a + leading_space(ws.skip(a as int)),
        decreases w.len() - a,
    {
        assert(ws.skip(a as int).drop_first() =~= ws.skip(a + 1));
        a = a + 1;
    }
    let ghost u = ws.skip(a as int);
    let mut b: usize = 0;
    assert(u.take(u.len() as int) =~= u);
    while b < w.len() - a && space(w[w.len() - 1 - b])
        invariant
            ws == w@,
            u == ws.skip(a as int),
            a <= w@.len(),
            b <= u.len(),
            trailing_space(u) == b + trailing_space(u.take(u.len() - b)),
        decreases w.len() - a - b,
    {
        assert(u.take(u.len() - b).drop_last() =~= u.take(u.len() - b - 1));
        assert(u.take(u.len() - b).last() == w@[w.len() - 1 - b]);
        b = b + 1;
    }
    let mut t: Vec<char> = Vec::new();
    let mut j: usize = a;
    while j < w.len() - b
        invariant
            ws == w@,
            a <= w@.len(),
            b <= w@.len() - a,
            a <= j <= w@.len() - b,
            t@ == ws.subrange(a as int, j as int),
        decreases w.len() - b - j,
    {
        t.push(w[j]);
        j = j + 1;
        assert(t@ =~= ws.subrange(a as int, j as int));
    }
    assert(leading_space(ws.skip(a as int)) == 0);
    assert(trailing_space(u.take(u.len() - b)) == 0);
    assert(t@ =~= trim(ws));
    t
}

/// The text a money amount is read as a number from (see [`currency_text`]).
pub fn clean_currency_text(currency_str: &str) -> (r: String)
    ensures
        r@ == currency_text(currency_str@),
{
    let v = chars_of(currency_str);
    let w = strip_marks(&v);
    let t = trimmed(&w);
    string_of(&t)
}

} // verus!
