//! Text operations of the standard library that the core relies on, each
//! behind a contract that states what its documentation promises. What is
//! stated here is believed, not proved.
use vstd::prelude::*;

verus! {

/// The text that `str::trim` makes of a text: the same without its leading
/// and trailing whitespace.
pub uninterp spec fn trimmed(text: Seq<char>) -> Seq<char>;

/// The text in which `format!("{}", value)` writes a signed integer: its
/// decimal digits, behind a minus sign where it is negative.
pub uninterp spec fn decimal(value: i64) -> Seq<char>;

/// The text in which `format!("{:04}", value)` writes a signed integer: its
/// decimal form, filled with zeros behind the sign to at least four
/// characters.
pub uninterp spec fn zero_padded(value: i64) -> Seq<char>;

/// The texts of a sequence of strings, in order.
pub open spec fn texts(strings: Seq<String>) -> Seq<Seq<char>> {
    strings.map_values(|s: String| s@)
}

/// What is left of `text` behind `prefix`, where `text` begins with it.
pub open spec fn without_prefix(text: Seq<char>, prefix: Seq<char>) -> Option<Seq<char>> {
    if prefix.is_prefix_of(text) {
        Some(text.skip(prefix.len() as int))
    } else {
        None
    }
}

/// The text of an optional string.
pub open spec fn text_of(value: Option<String>) -> Option<Seq<char>> {
    match value {
        Some(text) => Some(text@),
        None => None,
    }
}

/// `text` with every `from` replaced by `to`.
pub open spec fn with_replaced(text: Seq<char>, from: char, to: char) -> Seq<char> {
    text.map_values(|c: char| if c == from { to } else { c })
}

/// Whether `part` is a contiguous part of `whole`.
pub open spec fn is_part_of(part: Seq<char>, whole: Seq<char>) -> bool {
    exists|start: int, end: int|
        0 <= start <= end <= whole.len() && part == #[trigger] whole.subrange(start, end)
}

/// `str::trim`, copied into an owned string: the result is the argument
/// without its leading and trailing whitespace, a function of the argument
/// alone. It is a contiguous part of the argument, so the empty text gives
/// the empty text.
#[verifier::external_body]
pub(crate) fn trim_text(text: &str) -> (result: String)
    ensures
        result@ == trimmed(text@),
        is_part_of(result@, text@),
        text@.len() == 0 ==> result@.len() == 0,
{
    text.trim().to_string()
}

/// `str::strip_prefix` with a string as the pattern: where `text` begins
/// with `prefix`, the rest of `text` behind it; `None` otherwise.
#[verifier::external_body]
pub(crate) fn strip_text_prefix(text: &str, prefix: &str) -> (rest: Option<String>)
    ensures
        text_of(rest) == without_prefix(text@, prefix@),
{
    text.strip_prefix(prefix).map(|tail: &str| tail.to_string())
}

/// `str::replace` with a character as the pattern and a one-character
/// replacement: every occurrence of `from` becomes that character and all
/// else stays in place.
#[verifier::external_body]
pub(crate) fn replace_char(text: &str, from: char, to: &str) -> (result: String)
    requires
        to@.len() == 1,
    ensures
        result@ == with_replaced(text@, from, to@[0]),
{
    text.replace(from, to)
}

/// `format!` with `{}` on a signed integer: the result is its decimal text.
#[verifier::external_body]
pub(crate) fn decimal_text(value: i64) -> (result: String)
    ensures
        result@ == decimal(value),
{
    format!("{}", value)
}

/// `format!` with `{:04}` on a signed integer: the result is its decimal
/// text, zero-filled to at least four characters.
#[verifier::external_body]
pub(crate) fn zero_padded_text(value: i64) -> (result: String)
    ensures
        result@ == zero_padded(value),
{
    format!("{:04}", value)
}

} // verus!
