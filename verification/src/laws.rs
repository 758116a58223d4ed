//! What holds between the operations of this crate, whatever the strings.
//!
//! Each law is proved from the contracts of the functions it speaks of and
//! from nothing else.

use vstd::prelude::*;

use crate::ustr::UStr;
use crate::ustring::UString;

verus! {

/// Round trip: a text converted into a `UString`, and that converted back to
/// text, is the text it began as.
///
/// `owned` stands for any value that `UString::from` may return for `text`,
/// and `back` for any that `String::from` may return for `owned`.
pub proof fn lemma_text_round_trip(text: &str, owned: UString, back: String)
    requires
        call_ensures(<UString as From<&str>>::from, (text,), owned),
        call_ensures(<String as From<UString>>::from, (owned,), back),
    ensures
        back@ == text@,
{
}

/// Slicing and putting together again: the window over the first `i`
/// positions of a string, followed by the window over the rest, holds what the
/// string holds.
pub proof fn lemma_slice_concat(s: UString, i: usize)
    requires
        i <= s@.len(),
    ensures
        s@.subrange(0, i as int) + s@.subrange(i as int, s@.len() as int) == s@,
{
}

/// Every string begins with itself.
pub proof fn lemma_starts_with_reflexive(v: UStr<'_>)
    ensures
        v.starts_with(&v),
{
}

/// The code points that are Unicode scalar values: all but the surrogate
/// halves, up to the last code point.
pub open spec fn is_scalar_value(code: int) -> bool {
    0 <= code <= 0xD7FF || 0xE000 <= code <= 0x10FFFF
}

/// A `char` is a Unicode scalar value.
proof fn lemma_char_is_scalar_value(c: char)
    ensures
        is_scalar_value(c as int),
{
}

/// No element of a string is a surrogate half or lies beyond the last code
/// point: each is a Unicode scalar value.
pub proof fn lemma_elements_are_scalar_values(s: UString, i: int)
    requires
        0 <= i < s@.len(),
    ensures
        is_scalar_value(s@[i] as int),
{
    lemma_char_is_scalar_value(s@[i]);
}

} // verus!
