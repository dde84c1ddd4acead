//! The dice: draws from the thread-local random number generator.

use vstd::prelude::*;

verus! {

/// Relies on `rand::random_range` over `lo..hi`: a draw from the half-open
/// range, which panics only when the range is empty. Nothing more is assumed
/// of the draw than its bounds.
#[verifier::external_body]
pub(crate) fn random_in_range(lo: i32, hi: i32) -> (r: i32)
    requires
        lo < hi,
    ensures
        lo <= r < hi,
{
    rand::random_range(lo..hi)
}

} // verus!
