//! The source of randomness: the thread-local generator of the `rand` crate.

use rand::Rng;
use vstd::prelude::*;

verus! {

/// `Rng::gen_range` on `rand::thread_rng()`, over the half-open range from
/// zero to `bound`. The method panics on an empty range, which the
/// precondition excludes. Of the number drawn only its range is known: two
/// calls may differ.
#[verifier::external_body]
pub(crate) fn draw_below(bound: u8) -> (draw: u8)
    requires
        bound > 0,
    ensures
        draw < bound,
{
    rand::thread_rng().gen_range(0..bound)
}

} // verus!
