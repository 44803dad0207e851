//! Trusted boundary to the `rand` crate: drawing a uniform index for the
//! random-pick endpoint. Nothing is assumed of which index comes back, only
//! that it is in range; callers must hold for every outcome.

use vstd::prelude::*;

verus! {

/// Relies on `rand::Rng::gen_range` over `0..len`: the result lies in the
/// range, which the precondition keeps non-empty (the call panics on an
/// empty range). The draw is uniform, but being random, nothing more can be
/// stated of a single outcome.
#[verifier::external_body]
pub(crate) fn random_index(len: usize) -> (r: usize)
    requires
        len > 0,
    ensures
        r < len,
{
    rand::Rng::gen_range(&mut rand::thread_rng(), 0..len)
}

} // verus!
