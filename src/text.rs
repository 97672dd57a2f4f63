//! Text helpers: joining, substring replacement and searching, with their
//! meaning stated over character sequences.

use itertools::Itertools;
use vstd::prelude::*;

verus! {

/// The parts in order, with `sep` between each two of them.
pub open spec fn joined(parts: Seq<Seq<char>>, sep: Seq<char>) -> Seq<char>
    decreases parts.len(),
{
    if parts.len() == 0 {
        Seq::empty()
    } else if parts.len() == 1 {
        parts[0]
    } else {
        joined(parts.drop_last(), sep) + sep + parts.last()
    }
}

/// The character sequences of a list of strings.
pub open spec fn texts(v: Seq<String>) -> Seq<Seq<char>> {
    v.map_values(|s: String| s@)
}

/// Whether `pat` stands in `s` at position `i`.
pub open spec fn occurs_at(s: Seq<char>, pat: Seq<char>, i: int) -> bool {
    0 <= i && i + pat.len() <= s.len() && s.subrange(i, i + pat.len()) == pat
}

/// The first position at or after `i` where `pat` stands in `s`, or -1.
pub open spec fn first_occurrence_from(s: Seq<char>, pat: Seq<char>, i: int) -> int
    decreases s.len() + 1 - i,
{
    if i < 0 || i + pat.len() > s.len() {
        -1
    } else if occurs_at(s, pat, i) {
        i
    } else {
        first_occurrence_from(s, pat, i + 1)
    }
}

/// The first position where `pat` stands in `s`, or -1.
pub open spec fn first_occurrence(s: Seq<char>, pat: Seq<char>) -> int {
    first_occurrence_from(s, pat, 0)
}

/// `s` with each match of `from`, taken from left to right without overlap,
/// replaced by `to`.
pub open spec fn replaced(s: Seq<char>, from: Seq<char>, to: Seq<char>) -> Seq<char>
    decreases s.len(),
{
    if from.len() == 0 || s.len() < from.len() {
        s
    } else if s.subrange(0, from.len() as int) == from {
        to + replaced(s.subrange(from.len() as int, s.len() as int), from, to)
    } else {
        seq![s[0]] + replaced(s.subrange(1, s.len() as int), from, to)
    }
}

/// Relies on `itertools::Itertools::join` over strings: the items' text in
/// order, with `sep` between each two.
#[verifier::external_body]
pub(crate) fn join_texts(parts: &Vec<String>, sep: &str) -> (r: String)
    ensures
        r@ == joined(texts(parts@), sep@),
{
    parts.iter().join(sep)
}

/// Relies on `str::replace`: every match of `from`, found from left to right
/// without overlap, is replaced by `to`.
#[verifier::external_body]
pub(crate) fn replace_text(s: &str, from: &str, to: &str) -> (r: String)
    requires
        from@.len() > 0,
    ensures
        r@ == replaced(s@, from@, to@),
{
    s.replace(from, to)
}

/// Relies on `str::split_once`: the text before the first match of `pat`, if
/// there is one.
#[verifier::external_body]
pub(crate) fn text_before_first(s: &str, pat: &str) -> (r: Option<String>)
    ensures
        first_occurrence(s@, pat@) < 0 ==> r.is_none(),
        first_occurrence(s@, pat@) >= 0 ==> r is Some && r->0@ == s@.subrange(
            0,
            first_occurrence(s@, pat@),
        ),
{
    s.split_once(pat).map(|(before, _)| before.to_string())
}

/// A new string holding `s`.
pub(crate) fn text_of(s: &str) -> (r: String)
    ensures
        r@ == s@,
{
    String::from_str(s)
}

/// Whether `c` has the Unicode property White_Space.
pub uninterp spec fn is_white_space(c: char) -> bool;

pub open spec fn trimmed_start(s: Seq<char>) -> Seq<char>
    decreases s.len(),
{
    if s.len() > 0 && is_white_space(s[0]) {
        trimmed_start(s.subrange(1, s.len() as int))
    } else {
        s
    }
}

pub open spec fn trimmed_end(s: Seq<char>) -> Seq<char>
    decreases s.len(),
{
    if s.len() > 0 && is_white_space(s.last()) {
        trimmed_end(s.drop_last())
    } else {
        s
    }
}

/// `s` without leading and trailing white space.
pub open spec fn trimmed(s: Seq<char>) -> Seq<char> {
    trimmed_end(trimmed_start(s))
}

/// Relies on `str::trim`: leading and trailing white space removed, white
/// space being what `char::is_whitespace` accepts.
#[verifier::external_body]
pub(crate) fn trim_text(s: &str) -> (r: String)
    ensures
        r@ == trimmed(s@),
        r@.len() > 0 ==> !is_white_space(r@[0]) && !is_white_space(r@.last()),
{
    s.trim().to_string()
}

pub open spec fn digit_char(d: int) -> char {
    ((d + 48) as u8) as char
}

/// Decimal digits of `n`, most significant first.
pub open spec fn decimal_digits(n: nat) -> Seq<char>
    decreases n,
{
    if n < 10 {
        seq![digit_char(n as int)]
    } else {
        decimal_digits(n / 10).push(digit_char((n % 10) as int))
    }
}

/// Decimal notation of `v`, with a leading '-' when negative.
pub open spec fn decimal_of(v: int) -> Seq<char> {
    if v < 0 {
        seq!['-'] + decimal_digits((-v) as nat)
    } else {
        decimal_digits(v as nat)
    }
}

/// Relies on `ToString` for `i64`: its decimal notation.
#[verifier::external_body]
pub(crate) fn decimal_text(v: i64) -> (r: String)
    ensures
        r@ == decimal_of(v as int),
{
    v.to_string()
}

} // verus!
