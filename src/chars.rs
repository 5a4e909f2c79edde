//! Character classes and small helpers on character sequences.
use vstd::prelude::*;

verus! {

/// A letter, digit or underscore (ASCII only).
pub open spec fn is_ident_char(c: char) -> bool {
    let u = c as u32;
    (0x61 <= u && u <= 0x7a) || (0x41 <= u && u <= 0x5a) || (0x30 <= u && u <= 0x39) || c == '_'
}

/// A character that may start or continue an operator run.
pub open spec fn is_operator_char(c: char) -> bool {
    c == '=' || c == '+' || c == '-' || c == '!' || c == '/' || c == '<' || c == '>'
}

/// A decimal digit.
pub open spec fn is_digit(c: char) -> bool {
    0x30 <= (c as u32) && (c as u32) <= 0x39
}

/// A character that may continue a number: a digit or a dot.
pub open spec fn is_number_char(c: char) -> bool {
    is_digit(c) || c == '.'
}

/// A string delimiter.
pub open spec fn is_quote(c: char) -> bool {
    c == '\'' || c == '"'
}

/// A character with the Unicode `White_Space` property.
pub open spec fn is_whitespace(c: char) -> bool {
    let u = c as u32;
    (0x09 <= u && u <= 0x0d) || u == 0x20 || u == 0x85 || u == 0xa0 || u == 0x1680 || (0x2000
        <= u && u <= 0x200a) || u == 0x2028 || u == 0x2029 || u == 0x202f || u == 0x205f || u
        == 0x3000
}

pub fn is_valid_ident_char(c: char) -> (r: bool)
    ensures
        r == is_ident_char(c),
{
    let u = c as u32;
    (0x61 <= u && u <= 0x7a) || (0x41 <= u && u <= 0x5a) || (0x30 <= u && u <= 0x39) || c == '_'
}

pub fn is_valid_operator_char(c: char) -> (r: bool)
    ensures
        r == is_operator_char(c),
{
    c == '=' || c == '+' || c == '-' || c == '!' || c == '/' || c == '<' || c == '>'
}

pub fn is_valid_digit(c: char) -> (r: bool)
    ensures
        r == is_digit(c),
{
    0x30 <= (c as u32) && (c as u32) <= 0x39
}

pub fn is_valid_quote(c: char) -> (r: bool)
    ensures
        r == is_quote(c),
{
    c == '\'' || c == '"'
}

pub fn is_valid_whitespace(c: char) -> (r: bool)
    ensures
        r == is_whitespace(c),
{
    let u = c as u32;
    (0x09 <= u && u <= 0x0d) || u == 0x20 || u == 0x85 || u == 0xa0 || u == 0x1680 || (0x2000
        <= u && u <= 0x200a) || u == 0x2028 || u == 0x2029 || u == 0x202f || u == 0x205f || u
        == 0x3000
}

/// Relies on `str::chars` collected into a `Vec`: the characters of the
/// text, in order.
#[verifier::external_body]
pub(crate) fn chars_of(s: &str) -> (r: Vec<char>)
    ensures
        r@ == s@,
{
    s.chars().collect()
}

/// Relies on `String::push`: appends one character.
#[verifier::external_body]
pub(crate) fn push_char(s: &mut String, c: char)
    ensures
        final(s)@ == old(s)@.push(c),
{
    s.push(c)
}

/// A `String` holding the characters of `src` from `start` up to `end`.
pub fn text_between(src: &[char], start: usize, end: usize) -> (r: String)
    requires
        start <= end <= src@.len(),
    ensures
        r@ == src@.subrange(start as int, end as int),
{
    let mut r = String::new();
    let mut i: usize = start;
    while i < end
        invariant
            start <= i <= end <= src@.len(),
            r@ == src@.subrange(start as int, i as int),
        decreases end - i,
    {
        push_char(&mut r, src[i]);
        i = i + 1;
        assert(r@ =~= src@.subrange(start as int, i as int));
    }
    r
}

/// A `String` holding the given characters.
pub fn text_from(cs: &[char]) -> (r: String)
    ensures
        r@ == cs@,
{
    let r = text_between(cs, 0, cs.len());
    assert(cs@.subrange(0, cs@.len() as int) =~= cs@);
    r
}

/// Whether a text is exactly the one character `c`.
pub fn is_single(t: &[char], c: char) -> (r: bool)
    ensures
        r == (t@ == seq![c]),
{
    if t.len() == 1 {
        let r = t[0] == c;
        if r {
            assert(t@ =~= seq![c]);
        } else {
            assert(seq![c][0] == c);
        }
        r
    } else {
        assert(seq![c].len() == 1);
        false
    }
}

/// Whether two character sequences are equal.
pub fn same_chars(a: &[char], w: &[char]) -> (r: bool)
    ensures
        r == (a@ =~= w@),
{
    if a.len() != w.len() {
        return false;
    }
    let mut i: usize = 0;
    while i < a.len()
        invariant
            a@.len() == w@.len(),
            i <= a@.len(),
            forall|j: int| 0 <= j < i ==> a@[j] == w@[j],
        decreases a.len() - i,
    {
        if a[i] != w[i] {
            return false;
        }
        i = i + 1;
    }
    assert(a@ =~= w@);
    true
}

} // verus!
