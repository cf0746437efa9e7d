//! The simulation's only source of randomness, behind trusted range
//! wrappers. Nothing is assumed of a draw beyond its range, so everything
//! proved downstream holds for every outcome.

use vstd::prelude::*;

verus! {

/// Relies on rand's `Rng::gen_range` over `thread_rng`: a sample from a
/// nonempty inclusive range lies within that range, and the call cannot
/// panic because the range is nonempty.
#[verifier::external_body]
pub fn gen_range_i64(lo: i64, hi: i64) -> (r: i64)
    requires
        lo <= hi,
    ensures
        lo <= r <= hi,
{
    rand::Rng::gen_range(&mut rand::thread_rng(), lo..=hi)
}

/// Relies on rand's `Rng::gen_range` over `thread_rng`: a sample from a
/// nonempty half-open range lies within that range, and the call cannot
/// panic because the range is nonempty.
#[verifier::external_body]
pub fn gen_range_usize(lo: usize, hi: usize) -> (r: usize)
    requires
        lo < hi,
    ensures
        lo <= r < hi,
{
    rand::Rng::gen_range(&mut rand::thread_rng(), lo..hi)
}

} // verus!
