//! Random starting coordinates, drawn from the thread's generator of the
//! `rand` crate.

use vstd::prelude::*;
use rand::Rng;
use rand::rngs::ThreadRng;

verus! {

/// The handle to the thread-local generator of `rand`. Nothing is known of
/// its state.
#[verifier::external_type_specification]
#[verifier::external_body]
pub struct ExThreadRng(ThreadRng);

/// `rand::rng` hands out the handle to the calling thread's generator.
/// Nothing is claimed of the handle. The first call on a thread seeds the
/// generator from the operating system and panics where that fails; no
/// argument decides it, so no condition here can rule it out.
pub assume_specification[ rand::rng ]() -> (handle: ThreadRng);

/// Calls `Rng::random_range` of `rand` on the half-open range from `0` to
/// `bound`. Believed of it: for a range that is not empty it returns a value
/// of the range; which one is left open. On an empty range it panics, so
/// `bound` must be positive.
#[verifier::external_body]
pub(crate) fn random_below(rng: &mut ThreadRng, bound: i64) -> (value: i64)
    requires
        0 < bound,
    ensures
        0 <= value < bound,
{
    rng.random_range(0..bound)
}

/// Whether `value` is a starting coordinate for an axis of length `bound`:
/// below `bound` and not negative where there is room, else on the origin.
pub open spec fn starting_coordinate(value: int, bound: int) -> bool {
    if bound > 0 {
        0 <= value < bound
    } else {
        value == 0
    }
}

/// Draws a starting coordinate for an axis of length `bound`. An axis
/// without room puts the coordinate on the origin and draws nothing.
pub fn sample_coordinate(rng: &mut ThreadRng, bound: i64) -> (value: i64)
    ensures
        starting_coordinate(value as int, bound as int),
{
    if bound > 0 {
        random_below(rng, bound)
    } else {
        0
    }
}

} // verus!
