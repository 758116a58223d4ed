use vstd::prelude::*;
use vstd::slice::slice_subrange;

verus! {

/// A pass over the scalar values of a borrowed string, front to back.
///
/// The pass borrows; the string it came from is not changed, and another pass
/// can be started from it at any time. The model of a pass is the sequence of
/// scalar values it has still to yield.
#[derive(Debug)]
pub struct Iter<'a> {
    chars: &'a [char],
}

impl<'a> View for Iter<'a> {
    type V = Seq<char>;

    closed spec fn view(&self) -> Seq<char> {
        self.chars@
    }
}

impl<'a> Iter<'a> {
    /// The pass that has all of `chars` still to yield.
    pub(crate) fn over(chars: &'a [char]) -> (it: Iter<'a>)
        ensures
            it@ == chars@,
    {
        Iter { chars }
    }
}

impl<'a> Iterator for Iter<'a> {
    type Item = &'a char;

    /// Yields the first scalar value still to come and steps past it, or
    /// yields nothing, for good, once none is left.
    fn next(&mut self) -> (r: Option<&'a char>)
        ensures
            old(self)@.len() == 0 ==> r is None && final(self)@ == old(self)@,
            old(self)@.len() > 0 ==> r == Some(&old(self)@[0]) && final(self)@ == old(
                self,
            )@.drop_first(),
    {
        if self.chars.len() > 0 {
            let result = &self.chars[0];
            self.chars = slice_subrange(self.chars, 1, self.chars.len());
            Some(result)
        } else {
            None
        }
    }
}

impl<'a> vstd::std_specs::iter::IteratorSpecImpl for Iter<'a> {
    open spec fn obeys_prophetic_iter_laws(&self) -> bool {
        true
    }

    open spec fn remaining(&self) -> Seq<&'a char> {
        self@.as_ref()
    }

    open spec fn will_return_none(&self) -> bool {
        true
    }

    open spec fn decrease(&self) -> Option<nat> {
        Some(self@.len())
    }

    open spec fn initial_value_relation(&self, init: &Self) -> bool {
        self@ == init@
    }

    open spec fn peek(&self, index: int) -> Option<&'a char> {
        if 0 <= index < self@.len() {
            Some(&self@[index])
        } else {
            None
        }
    }
}

/// A pass over the scalar values of an owned string, front to back, that uses
/// the string up.
///
/// Each scalar value is yielded once; the pass cannot be started again. The
/// model of a pass is the sequence of scalar values it has still to yield.
#[derive(Debug)]
pub struct IntoIter {
    chars: Vec<char>,
}

impl View for IntoIter {
    type V = Seq<char>;

    closed spec fn view(&self) -> Seq<char> {
        self.chars@
    }
}

impl IntoIter {
    /// The pass that has all of `chars` still to yield.
    pub(crate) fn over(chars: Vec<char>) -> (it: IntoIter)
        ensures
            it@ == chars@,
    {
        IntoIter { chars }
    }
}

impl Iterator for IntoIter {
    type Item = char;

    /// Takes the first scalar value still to come out of the pass and yields
    /// it, or yields nothing, for good, once none is left.
    fn next(&mut self) -> (r: Option<char>)
        ensures
            old(self)@.len() == 0 ==> r is None && final(self)@ == old(self)@,
            old(self)@.len() > 0 ==> r == Some(old(self)@[0]) && final(self)@ == old(
                self,
            )@.drop_first(),
    {
        if self.chars.len() > 0 {
            let first = self.chars.remove(0);
            assert(self.chars@ =~= old(self).chars@.drop_first());
            Some(first)
        } else {
            None
        }
    }
}

impl vstd::std_specs::iter::IteratorSpecImpl for IntoIter {
    open spec fn obeys_prophetic_iter_laws(&self) -> bool {
        true
    }

    open spec fn remaining(&self) -> Seq<char> {
        self@
    }

    open spec fn will_return_none(&self) -> bool {
        true
    }

    open spec fn decrease(&self) -> Option<nat> {
        Some(self@.len())
    }

    open spec fn initial_value_relation(&self, init: &Self) -> bool {
        self@ == init@
    }

    open spec fn peek(&self, index: int) -> Option<char> {
        if 0 <= index < self@.len() {
            Some(self@[index])
        } else {
            None
        }
    }
}

} // verus!
