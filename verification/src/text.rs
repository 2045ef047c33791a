//! Text helpers: the few operations of `str` that the rules of this library
//! rest on, each with the meaning its documentation gives it.

use vstd::prelude::*;

verus! {

/// Number of bytes a text takes in UTF-8, which is what `str::len` counts.
pub open spec fn utf8_len(text: Seq<char>) -> nat {
    vstd::utf8::encode_utf8(text).len()
}

/// Whether `pattern` stands somewhere in `text` as a run of adjacent
/// characters.
pub open spec fn occurs_in(pattern: Seq<char>, text: Seq<char>) -> bool {
    exists|i: int|
        0 <= i && i + pattern.len() <= text.len() && #[trigger] text.subrange(
            i,
            i + pattern.len(),
        ) == pattern
}

/// A text without the occurrences of one character.
pub open spec fn without_char(text: Seq<char>, dropped: char) -> Seq<char> {
    text.filter(|c: char| c != dropped)
}

/// The text `str::to_lowercase` makes of a text.
pub uninterp spec fn lowercase_text(text: Seq<char>) -> Seq<char>;

/// The character of a digit from 0 to 9.
pub open spec fn digit_char(digit: int) -> char {
    seq!['0', '1', '2', '3', '4', '5', '6', '7', '8', '9'][digit]
}

/// The decimal digits of a natural number, the highest first, without
/// leading zeros; `0` for zero.
pub open spec fn natural_digits(n: nat) -> Seq<char>
    decreases n,
{
    if n < 10 {
        seq![digit_char(n as int)]
    } else {
        natural_digits(n / 10).push(digit_char((n % 10) as int))
    }
}

/// A whole number in decimal: its digits, with a minus sign before them
/// where the number is negative.
pub open spec fn decimal_text(n: int) -> Seq<char> {
    if n < 0 {
        seq!['-'] + natural_digits((-n) as nat)
    } else {
        natural_digits(n as nat)
    }
}

/// Trusted: `==` on `str`, which holds exactly of equal texts.
#[verifier::external_body]
pub(crate) fn same_text(a: &str, b: &str) -> (same: bool)
    ensures
        same == (a@ == b@),
{
    a == b
}

/// Trusted: `str::starts_with` with a `&str` pattern: whether the pattern is
/// a prefix of the text.
#[verifier::external_body]
pub(crate) fn has_prefix(text: &str, prefix: &str) -> (found: bool)
    ensures
        found == prefix@.is_prefix_of(text@),
{
    text.starts_with(prefix)
}

/// Trusted: `str::contains` with a `&str` pattern: whether the pattern
/// matches a sub-slice of the text.
#[verifier::external_body]
pub(crate) fn has_part(text: &str, pattern: &str) -> (found: bool)
    ensures
        found == occurs_in(pattern@, text@),
{
    text.contains(pattern)
}

/// Trusted: `str::replace` with a pattern of one character and an empty
/// replacement, which drops every occurrence of that character and keeps
/// the rest in order.
#[verifier::external_body]
pub(crate) fn replaced(text: &str, pattern: &str, with: &str) -> (out: String)
    requires
        pattern@.len() == 1,
        with@.len() == 0,
    ensures
        out@ == without_char(text@, pattern@[0]),
{
    text.replace(pattern, with)
}

/// Trusted: `str::to_lowercase`. The contract only gives the result its name.
#[verifier::external_body]
pub(crate) fn lowercased(text: &str) -> (out: String)
    ensures
        out@ == lowercase_text(text@),
{
    text.to_lowercase()
}

/// Trusted: `i128::to_string`, which prints a whole number in decimal: a
/// minus sign where it is negative, then its digits without leading zeros.
#[verifier::external_body]
pub(crate) fn decimal(n: i128) -> (out: String)
    ensures
        out@ == decimal_text(n as int),
{
    n.to_string()
}

/// Number of bytes of a text.
pub fn byte_len(text: &str) -> (n: usize)
    ensures
        n == utf8_len(text@),
{
    text.as_bytes().len()
}

/// A new `String` with the characters of `text`.
pub fn owned(text: &str) -> (out: String)
    ensures
        out@ == text@,
{
    text.to_string()
}

/// Two texts joined, the first followed by the second.
pub fn joined(first: &str, second: &str) -> (out: String)
    ensures
        out@ == first@ + second@,
{
    let mut out: String = first.to_string();
    out.append(second);
    out
}

} // verus!
