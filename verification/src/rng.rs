//! Trusted access to the rand crate, for the exchange generator and
//! the conversation engine's human-like delays and typos.

use rand::Rng;
use vstd::prelude::*;

verus! {

/// Relies on rand's `Rng::gen_range` over an inclusive range: the
/// sampled value lies inside it.  The range must be nonempty, or the
/// call panics.
#[verifier::external_body]
pub fn rand_range_u64(lo: u64, hi: u64) -> (r: u64)
    requires
        lo <= hi,
    ensures
        lo <= r <= hi,
{
    rand::thread_rng().gen_range(lo..=hi)
}

/// Relies on rand's `Rng::gen_range` over an inclusive range of `u32`.
#[verifier::external_body]
pub fn rand_range_u32(lo: u32, hi: u32) -> (r: u32)
    requires
        lo <= hi,
    ensures
        lo <= r <= hi,
{
    rand::thread_rng().gen_range(lo..=hi)
}

/// Relies on rand's `Rng::gen_range`: an index below `n`.  The range
/// must be nonempty, or the call panics.
#[verifier::external_body]
pub fn rand_below(n: usize) -> (r: usize)
    requires
        n > 0,
    ensures
        r < n,
{
    rand::thread_rng().gen_range(0..n)
}

/// Relies on rand's `Rng::gen_ratio`: true with probability
/// `num / den`.  Nothing is promised of the outcome.  `gen_ratio`
/// panics when the ratio is malformed, so the arguments are
/// constrained here.
#[verifier::external_body]
pub fn rand_ratio(num: u32, den: u32) -> bool
    requires
        0 < den,
        num <= den,
{
    rand::thread_rng().gen_ratio(num, den)
}

} // verus!
