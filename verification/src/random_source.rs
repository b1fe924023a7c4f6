//! The engine's randomness: the winner index, the spin duration, the
//! sub-row jitter and the noise samples are all drawn here, each as a
//! plain value in a stated half-open range. Nothing more is promised
//! of a draw — to the verified callers two draws on the same inputs
//! may differ.

use vstd::prelude::*;
use rand::Rng;

verus! {

/// Relies on rand::Rng::gen_range on `lo..hi`: the draw lies in the
/// half-open range, and the range is non-empty, so it never panics.
#[verifier::external_body]
pub(crate) fn rand_u64_between(lo: u64, hi: u64) -> (r: u64)
    requires
        lo < hi,
    ensures
        lo <= r < hi,
{
    rand::thread_rng().gen_range(lo..hi)
}

/// Relies on rand::Rng::gen_range on `lo..hi`: the draw lies in the
/// half-open range, and the range is non-empty, so it never panics.
#[verifier::external_body]
pub(crate) fn rand_i64_between(lo: i64, hi: i64) -> (r: i64)
    requires
        lo < hi,
    ensures
        lo <= r < hi,
{
    rand::thread_rng().gen_range(lo..hi)
}

/// A uniform draw below `n`.
pub(crate) fn rand_u64_below(n: u64) -> (r: u64)
    requires
        0 < n,
    ensures
        r < n,
{
    rand_u64_between(0, n)
}

/// A uniform index into a sequence of `n` elements.
pub(crate) fn rand_index(n: usize) -> (r: usize)
    requires
        0 < n,
    ensures
        r < n,
{
    rand_u64_between(0, n as u64) as usize
}

} // verus!
