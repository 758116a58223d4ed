use vstd::prelude::*;
use vstd::slice::slice_subrange;
use vstd::slice::slice_to_vec;

use crate::error::IndexOutOfBounds;
use crate::iter::Iter;
use crate::scalars::same_scalars;
use crate::ustring::UString;

verus! {

/// A Unicode string slice: a borrowed, read-only window over a contiguous run
/// of scalar values.
///
/// A `UStr` owns nothing. It is a reference and a length, it is copied
/// freely, and narrowing it gives another window over the same storage. A
/// window of length zero is a string like any other. Its model is the sequence
/// of scalar values it shows.
#[derive(Clone, Copy, Debug, Hash)]
pub struct UStr<'a> {
    chars: &'a [char],
}

impl<'a> View for UStr<'a> {
    type V = Seq<char>;

    closed spec fn view(&self) -> Seq<char> {
        self.chars@
    }
}

impl<'a> UStr<'a> {
    /// The window over the whole of `chars`.
    pub(crate) fn over(chars: &'a [char]) -> (s: UStr<'a>)
        ensures
            s@ == chars@,
    {
        UStr { chars }
    }

    /// Returns the number of Unicode scalar values in this string.
    pub fn len(&self) -> (n: usize)
        ensures
            n == self@.len(),
    {
        self.chars.len()
    }

    /// Returns the scalar value at position `idx`, or the error when `idx` is
    /// not a position of this string.
    pub fn try_index(&self, idx: usize) -> (r: Result<char, IndexOutOfBounds>)
        ensures
            r == if idx < self@.len() {
                Ok::<char, IndexOutOfBounds>(self@[idx as int])
            } else {
                Err::<char, IndexOutOfBounds>(IndexOutOfBounds)
            },
    {
        if idx < self.chars.len() {
            Ok(self.chars[idx])
        } else {
            Err(IndexOutOfBounds)
        }
    }

    /// The window over the positions `start..end` of this string. Nothing is
    /// copied: the result shows the same storage.
    pub fn slice(&self, start: usize, end: usize) -> (s: UStr<'a>)
        requires
            start <= end <= self@.len(),
        ensures
            s@ == self@.subrange(start as int, end as int),
    {
        UStr { chars: slice_subrange(self.chars, start, end) }
    }

    /// The window over everything from position `start` on.
    pub fn slice_from(&self, start: usize) -> (s: UStr<'a>)
        requires
            start <= self@.len(),
        ensures
            s@ == self@.subrange(start as int, self@.len() as int),
    {
        self.slice(start, self.chars.len())
    }

    /// The window over the first `end` positions.
    pub fn slice_to(&self, end: usize) -> (s: UStr<'a>)
        requires
            end <= self@.len(),
        ensures
            s@ == self@.subrange(0, end as int),
    {
        self.slice(0, end)
    }

    /// The window over the full range: this window again.
    pub fn slice_full(&self) -> (s: UStr<'a>)
        ensures
            s@ == self@,
    {
        *self
    }

    /// The window over the positions `start..end`, or the error when that
    /// range runs backwards or past the end of this string.
    pub fn try_slice(&self, start: usize, end: usize) -> (r: Result<UStr<'a>, IndexOutOfBounds>)
        ensures
            r is Ok <==> start <= end <= self@.len(),
            r matches Ok(s) ==> s@ == self@.subrange(start as int, end as int),
            r matches Err(e) ==> e == IndexOutOfBounds,
    {
        if start <= end && end <= self.chars.len() {
            Ok(self.slice(start, end))
        } else {
            Err(IndexOutOfBounds)
        }
    }

    /// Retrieves the first character from a `UStr` and returns it, together
    /// with the window that begins one character further on: what indexing at
    /// 0 and slicing from 1 give.
    ///
    /// This does not allocate a new string. If the string does not contain any
    /// characters, `None` is returned instead.
    pub fn slice_shift_char(&self) -> (r: Option<(char, UStr<'a>)>)
        ensures
            self@.len() == 0 ==> r is None,
            self@.len() > 0 ==> {
                &&& r matches Some((ch, rest))
                &&& ch == self@[0]
                &&& rest@ == self@.subrange(1, self@.len() as int)
            },
    {
        if self.len() == 0 {
            None
        } else {
            let ch = self[0];
            let next_s = self.slice_from(1);
            Some((ch, next_s))
        }
    }

    /// What [`UStr::starts_with`] decides: `prefix` is no longer than this
    /// string and agrees with it, position by position, over its own length.
    pub open spec fn spec_starts_with(&self, prefix: &UStr<'_>) -> bool {
        prefix@.is_prefix_of(self@)
    }

    /// Tells whether this string begins with the whole of `prefix`.
    #[verifier::when_used_as_spec(spec_starts_with)]
    pub fn starts_with(&self, prefix: &UStr<'_>) -> (b: bool)
        ensures
            b == self.spec_starts_with(prefix),
    {
        let n: usize = prefix.chars.len();
        self.chars.len() >= n && same_scalars(prefix.chars, slice_subrange(self.chars, 0, n))
    }

    /// What [`UStr::ends_with`] decides: `suffix` is no longer than this
    /// string and agrees with its last positions, one by one.
    pub open spec fn spec_ends_with(&self, suffix: &UStr<'_>) -> bool {
        suffix@.is_suffix_of(self@)
    }

    /// Tells whether this string ends with the whole of `suffix`.
    #[verifier::when_used_as_spec(spec_ends_with)]
    pub fn ends_with(&self, suffix: &UStr<'_>) -> (b: bool)
        ensures
            b == self.spec_ends_with(suffix),
    {
        let m: usize = self.chars.len();
        let n: usize = suffix.chars.len();
        m >= n && same_scalars(suffix.chars, slice_subrange(self.chars, m - n, m))
    }

    /// An owned string with a copy of the scalar values that this window shows.
    pub fn to_ustring(&self) -> (s: UString)
        ensures
            s@ == self@,
    {
        UString::from(slice_to_vec(self.chars))
    }

    /// This string as text: the display form of each scalar value in turn,
    /// with nothing in between. `String` shows the same for the same content.
    pub fn to_string(&self) -> (text: String)
        ensures
            text@ == self@,
    {
        let mut text = String::new();
        let mut i: usize = 0;
        while i < self.chars.len()
            invariant
                i <= self@.len(),
                text@ == self@.take(i as int),
            decreases self@.len() - i,
        {
            text.push(self.chars[i]);
            i += 1;
        }
        text
    }
}

impl<'a> core::ops::Index<usize> for UStr<'a> {
    type Output = char;

    /// The scalar value at position `idx`.
    fn index(&self, idx: usize) -> (c: &char)
        ensures
            *c == self@[idx as int],
    {
        &self.chars[idx]
    }
}

impl<'a> vstd::std_specs::core::IndexSpecImpl<usize> for UStr<'a> {
    /// Indexing asks for a position of the string.
    open spec fn index_req(&self, idx: &usize) -> bool {
        *idx < self@.len()
    }
}

impl<'a> PartialEq for UStr<'a> {
    /// Two strings are equal when they have the same length and hold the same
    /// scalar value at each position.
    fn eq(&self, other: &Self) -> (r: bool) {
        same_scalars(self.chars, other.chars)
    }
}

impl<'a> vstd::std_specs::cmp::PartialEqSpecImpl for UStr<'a> {
    open spec fn obeys_eq_spec() -> bool {
        true
    }

    open spec fn eq_spec(&self, other: &Self) -> bool {
        self@ == other@
    }
}

impl<'a> Eq for UStr<'a> {

}

impl<'a> IntoIterator for UStr<'a> {
    type Item = &'a char;

    type IntoIter = Iter<'a>;

    /// The pass over the scalar values of this window, front to back. The
    /// window is a copy, so a fresh pass can be had from it at any time.
    fn into_iter(self) -> (it: Iter<'a>)
        ensures
            it@ == self@,
    {
        Iter::over(self.chars)
    }
}

} // verus!
