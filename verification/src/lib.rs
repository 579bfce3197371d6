//! Addition of unsigned 64-bit integers, proved exact and free of overflow.

use vstd::prelude::*;

verus! {

/// Returns the sum of `left` and `right`.
///
/// The caller shows that the mathematical sum fits in a `u64`. The result is
/// then that sum itself: nothing wraps and nothing is cut off.
pub fn add(left: u64, right: u64) -> (sum: u64)
    requires
        left + right <= u64::MAX,
    ensures
        sum == left + right,
{
    left + right
}

} // verus!
