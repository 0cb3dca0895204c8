//! The crate's one source of randomness: a uniform draw from a half-open
//! integer range, used for the zombie spawn column and for the cosmetic
//! jitter of score indicators.

use vstd::prelude::*;

verus! {

/// Relies on `rand::random_range` over `lo..hi`: it returns a value of the
/// half-open range `[lo, hi)` drawn from the thread-local generator, and
/// panics only when the range is empty, which the precondition rules out.
#[verifier::external_body]
pub(crate) fn random_in_range(lo: i64, hi: i64) -> (r: i64)
    requires
        lo < hi,
    ensures
        lo <= r < hi,
{
    rand::random_range(lo..hi)
}

} // verus!
