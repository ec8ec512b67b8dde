//! Trusted wrappers around the pseudo-random number generator.

use vstd::prelude::*;
use rand::Rng;

verus! {

/// Relies on rand's `thread_rng` and `Rng::gen_range` over the half-open
/// range `0..bound`: the draw is strictly below the bound. `gen_range`
/// panics on an empty range, which the precondition rules out. Nothing is
/// assumed about which value comes up.
#[verifier::external_body]
pub(crate) fn draw_below(bound: u32) -> (r: u32)
    requires
        bound > 0,
    ensures
        r < bound,
{
    rand::thread_rng().gen_range(0..bound)
}

/// Relies on rand's `thread_rng` and `Rng::gen::<bool>`: a coin flip.
/// Either side may come up, so nothing is promised of the result.
#[verifier::external_body]
pub(crate) fn draw_bool() -> bool {
    rand::thread_rng().gen::<bool>()
}

} // verus!
