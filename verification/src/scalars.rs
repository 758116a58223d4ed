//! Element-wise comparisons on plain runs of scalar values, shared by the
//! owned and the borrowed string type.

use vstd::prelude::*;

verus! {

/// Tells whether two runs hold the same scalar values in the same order.
pub(crate) fn same_scalars(a: &[char], b: &[char]) -> (same: bool)
    ensures
        same == (a@ == b@),
{
    if a.len() != b.len() {
        return false;
    }
    let mut i: usize = 0;
    while i < a.len()
        invariant
            a@.len() == b@.len(),
            i <= a@.len(),
            forall|k: int| 0 <= k < i ==> a@[k] == b@[k],
        decreases a@.len() - i,
    {
        if a[i] != b[i] {
            return false;
        }
        i += 1;
    }
    assert(a@ =~= b@);
    true
}

} // verus!
