//! The way from standard text to strings of scalar values and back.
//!
//! Verus models a text by the scalar values it encodes, so a conversion in
//! either direction keeps the view. The encoding itself is std's business.

use vstd::prelude::*;

use crate::ustr::UStr;
use crate::ustring::UString;

verus! {

/// `String::push` appends the given `char` to the end of the `String`: the
/// text afterwards is the text before, followed by `ch`.
pub assume_specification[ String::push ](s: &mut String, ch: char)
    ensures
        final(s)@ == old(s)@.push(ch),
;

/// Decodes `text` into the scalar values it is made of, in order.
fn decode(text: &str) -> (chars: Vec<char>)
    ensures
        chars@ == text@,
{
    let mut chars: Vec<char> = Vec::new();
    for c in it: text.chars()
        invariant
            it.seq() == text@,
            chars@ == it.seq().take(it.index()),
    {
        chars.push(c);
    }
    chars
}

impl From<String> for UString {
    /// The scalar values of `string`, in order.
    fn from(string: String) -> (s: UString)
        ensures
            s@ == string@,
    {
        UString::from(decode(string.as_str()))
    }
}

/// What `from` returns is stated by its own contract, over the views.
impl vstd::std_specs::convert::FromSpecImpl<String> for UString {
    open spec fn obeys_from_spec() -> bool {
        false
    }

    open spec fn from_spec(string: String) -> UString {
        arbitrary()
    }
}

impl<'a> From<&'a str> for UString {
    /// The scalar values of `string`, in order.
    fn from(string: &'a str) -> (s: UString)
        ensures
            s@ == string@,
    {
        UString::from(decode(string))
    }
}

/// What `from` returns is stated by its own contract, over the views.
impl<'a> vstd::std_specs::convert::FromSpecImpl<&'a str> for UString {
    open spec fn obeys_from_spec() -> bool {
        false
    }

    open spec fn from_spec(string: &'a str) -> UString {
        arbitrary()
    }
}

impl From<UString> for String {
    /// The text made of the scalar values of `string`, in order. The string
    /// is used up.
    fn from(string: UString) -> (text: String)
        ensures
            text@ == string@,
    {
        let mut text = String::new();
        let ghost all = string@;
        for c in it: string
            invariant
                it.seq() == all,
                text@ == all.take(it.index()),
        {
            text.push(c);
        }
        text
    }
}

/// What `from` returns is stated by its own contract, over the views.
impl vstd::std_specs::convert::FromSpecImpl<UString> for String {
    open spec fn obeys_from_spec() -> bool {
        false
    }

    open spec fn from_spec(string: UString) -> String {
        arbitrary()
    }
}

impl<'a> From<&'a UString> for String {
    /// The text made of the scalar values of `string`, in order.
    fn from(string: &'a UString) -> (text: String)
        ensures
            text@ == string@,
    {
        String::from(string.as_ustr())
    }
}

/// What `from` returns is stated by its own contract, over the views.
impl<'a> vstd::std_specs::convert::FromSpecImpl<&'a UString> for String {
    open spec fn obeys_from_spec() -> bool {
        false
    }

    open spec fn from_spec(string: &'a UString) -> String {
        arbitrary()
    }
}

impl<'a> From<UStr<'a>> for String {
    /// The text made of the scalar values that `slice` shows, in order.
    fn from(slice: UStr<'a>) -> (text: String)
        ensures
            text@ == slice@,
    {
        let mut text = String::new();
        for c in it: slice
            invariant
                it.seq() == slice@.as_ref(),
                text@ == slice@.take(it.index()),
        {
            text.push(*c);
        }
        text
    }
}

/// What `from` returns is stated by its own contract, over the views.
impl<'a> vstd::std_specs::convert::FromSpecImpl<UStr<'a>> for String {
    open spec fn obeys_from_spec() -> bool {
        false
    }

    open spec fn from_spec(slice: UStr<'a>) -> String {
        arbitrary()
    }
}

} // verus!
