use vstd::prelude::*;

verus! {

/// The one way an operation of this crate can fail: it was given a position
/// or a range that does not lie within the string it was applied to.
///
/// An operation that returns this error has changed nothing.
#[derive(Clone, Copy, Debug, PartialEq, Eq, Structural)]
pub struct IndexOutOfBounds;

} // verus!
