use vstd::prelude::*;
use vstd::slice::slice_to_vec;

use crate::error::IndexOutOfBounds;
use crate::iter::{IntoIter, Iter};
use crate::scalars::same_scalars;
use crate::ustr::UStr;

verus! {

/// An owned sequence of Unicode scalar values, equivalent to `String`.
///
/// It grows at the end and gives up elements at any position. Everything that
/// only reads is defined once, on [`UStr`], and reached through
/// [`UString::as_ustr`]. Its model is the sequence of scalar values it holds.
#[derive(Debug, Hash)]
pub struct UString {
    chars: Vec<char>,
}

impl View for UString {
    type V = Seq<char>;

    closed spec fn view(&self) -> Seq<char> {
        self.chars@
    }
}

impl UString {
    /// Appends a character to the end of the string.
    ///
    /// The string is one longer than before, its last character is `c`, and
    /// the characters before it are those it held.
    pub fn push(&mut self, c: char)
        ensures
            final(self)@ == old(self)@.push(c),
            final(self)@.len() == old(self)@.len() + 1,
            final(self)@[final(self)@.len() - 1] == c,
    {
        self.chars.push(c);
    }

    /// Removes the character at position `idx` and returns it. The characters
    /// behind it move one position towards the front, and the string is one
    /// shorter than before.
    pub fn remove(&mut self, idx: usize) -> (c: char)
        requires
            idx < old(self)@.len(),
        ensures
            c == old(self)@[idx as int],
            final(self)@ == old(self)@.remove(idx as int),
            final(self)@.len() == old(self)@.len() - 1,
    {
        self.chars.remove(idx)
    }

    /// Removes the character at position `idx` and returns it, as
    /// [`UString::remove`] does, where `idx` is a position of the string.
    /// Where it is not, returns the error and leaves the string as it was.
    pub fn try_remove(&mut self, idx: usize) -> (r: Result<char, IndexOutOfBounds>)
        ensures
            idx < old(self)@.len() ==> {
                &&& r == Ok::<char, IndexOutOfBounds>(old(self)@[idx as int])
                &&& final(self)@ == old(self)@.remove(idx as int)
                &&& final(self)@.len() == old(self)@.len() - 1
            },
            idx >= old(self)@.len() ==> {
                &&& r == Err::<char, IndexOutOfBounds>(IndexOutOfBounds)
                &&& *final(self) == *old(self)
                &&& final(self)@.len() == old(self)@.len()
            },
    {
        if idx < self.chars.len() {
            Ok(self.remove(idx))
        } else {
            Err(IndexOutOfBounds)
        }
    }

    /// The window over the whole of this string as it is now.
    ///
    /// The window borrows the string, so the string cannot change while the
    /// window is in use.
    pub fn as_ustr(&self) -> (s: UStr<'_>)
        ensures
            s@ == self@,
    {
        UStr::over(self.chars.as_slice())
    }
}

impl Default for UString {
    /// The empty string.
    fn default() -> (s: UString)
        ensures
            s@ == Seq::<char>::empty(),
    {
        UString { chars: Vec::new() }
    }
}

impl Clone for UString {
    /// A second string that holds the same scalar values.
    fn clone(&self) -> (s: UString)
        ensures
            s@ == self@,
    {
        UString { chars: self.chars.clone() }
    }
}

impl PartialEq for UString {
    /// Two strings are equal when they have the same length and hold the same
    /// scalar value at each position.
    fn eq(&self, other: &Self) -> (r: bool) {
        same_scalars(self.chars.as_slice(), other.chars.as_slice())
    }
}

impl vstd::std_specs::cmp::PartialEqSpecImpl for UString {
    open spec fn obeys_eq_spec() -> bool {
        true
    }

    open spec fn eq_spec(&self, other: &Self) -> bool {
        self@ == other@
    }
}

impl Eq for UString {

}

impl From<Vec<char>> for UString {
    /// The string that holds `chars`, in their order. The vector is taken
    /// over, not copied.
    fn from(chars: Vec<char>) -> (s: UString)
        ensures
            s@ == chars@,
    {
        UString { chars }
    }
}

/// What `from` returns is stated by its own contract, over the views: ghost
/// code has no way to write a `UString` down.
impl vstd::std_specs::convert::FromSpecImpl<Vec<char>> for UString {
    open spec fn obeys_from_spec() -> bool {
        false
    }

    open spec fn from_spec(chars: Vec<char>) -> UString {
        arbitrary()
    }
}

impl<'a> From<&'a [char]> for UString {
    /// The string that holds a copy of `slice`.
    fn from(slice: &'a [char]) -> (s: UString)
        ensures
            s@ == slice@,
    {
        UString { chars: slice_to_vec(slice) }
    }
}

/// What `from` returns is stated by its own contract, over the views.
impl<'a> vstd::std_specs::convert::FromSpecImpl<&'a [char]> for UString {
    open spec fn obeys_from_spec() -> bool {
        false
    }

    open spec fn from_spec(slice: &'a [char]) -> UString {
        arbitrary()
    }
}

impl From<char> for UString {
    /// The string of the one character `c`.
    fn from(c: char) -> (s: UString)
        ensures
            s@ == seq![c],
    {
        UString { chars: vec![c] }
    }
}

/// What `from` returns is stated by its own contract, over the views.
impl vstd::std_specs::convert::FromSpecImpl<char> for UString {
    open spec fn obeys_from_spec() -> bool {
        false
    }

    open spec fn from_spec(c: char) -> UString {
        arbitrary()
    }
}

impl IntoIterator for UString {
    type Item = char;

    type IntoIter = IntoIter;

    /// The pass over this string's scalar values, front to back, that uses
    /// the string up.
    fn into_iter(self) -> (it: IntoIter)
        ensures
            it@ == self@,
    {
        IntoIter::over(self.chars)
    }
}

impl<'a> IntoIterator for &'a UString {
    type Item = &'a char;

    type IntoIter = Iter<'a>;

    /// The pass over this string's scalar values, front to back, that leaves
    /// the string as it is.
    fn into_iter(self) -> (it: Iter<'a>)
        ensures
            it@ == self@,
    {
        Iter::over(self.chars.as_slice())
    }
}

} // verus!
