//! A two-dimensional world of point particles under gravity inside a
//! rectangle, with a smoothed density field over the particle set.
//!
//! Every quantity is a fixed-point integer: one unit is a thousandth of a
//! length unit, of a length unit per second, or of a second.

use vstd::prelude::*;

pub mod kernel;
pub mod particle;
pub mod sampling;
pub mod symmetry;
pub mod units;
pub mod world;

verus! {

/// Adds two integers; a sanity check for callers across a language boundary.
pub fn add(left: i32, right: i32) -> (sum: i32)
    requires
        i32::MIN <= left + right <= i32::MAX,
    ensures
        sum == left + right,
{
    left + right
}

} // verus!
