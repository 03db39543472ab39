//! Draws from the process-wide random generator, behind contracts that state
//! only the range of each draw.

use vstd::prelude::*;

use rand::Rng;

use crate::fixed::FP_ONE;

verus! {

/// Relies on `rand::thread_rng` and `rand::Rng::gen_range`: for a nonempty
/// half-open range `0..n` of `usize`, the drawn value lies in `[0, n)`
/// (`gen_range` panics on an empty range, which the precondition rules out).
/// Nothing is assumed about which value comes back.
#[verifier::external_body]
pub(crate) fn rand_index(n: usize) -> (r: usize)
    requires
        0 < n,
    ensures
        r < n,
{
    rand::thread_rng().gen_range(0..n)
}

/// Relies on `rand::thread_rng` and `rand::Rng::gen_range`: for a nonempty
/// half-open range `lo..hi` of `i64`, the drawn value lies in `[lo, hi)`
/// (`gen_range` panics on an empty range, which the precondition rules out).
/// Nothing is assumed about which value comes back.
#[verifier::external_body]
pub(crate) fn rand_fp_range(lo: i64, hi: i64) -> (r: i64)
    requires
        lo < hi,
    ensures
        lo <= r < hi,
{
    rand::thread_rng().gen_range(lo..hi)
}

/// A fresh probability draw: a fixed-point value uniform in [0, 1).
/// An event with chance `c` fires when the draw is below `c`, so a chance of
/// zero or less never fires and a chance of one or more always fires.
pub(crate) fn rand_chance() -> (r: i64)
    ensures
        0 <= r < FP_ONE,
{
    rand_fp_range(0, FP_ONE)
}

} // verus!
