//! The smoothing kernel and the sum of its weights over a set of particles.
//!
//! The kernel is the sixth-degree polynomial `4 / (pi * h^8) * (h^2 - r^2)^3`
//! for a distance `r` up to the support radius `h`, and zero beyond it. Its
//! constant factor `4 / (pi * h^8)` is the same for every particle, so the
//! functions here work with the integer part `(h^2 - r^2)^3` alone, which is
//! exact. A density is that factor times a kernel sum.

use vstd::prelude::*;
use crate::particle::Particle;
use crate::units::within_limit;

verus! {

/// Largest support radius of the kernel.
pub const MAX_RADIUS: i64 = 100_000;

/// Largest weight of one particle: the sixth power of `MAX_RADIUS`.
pub const MAX_WEIGHT: u128 = 1_000_000_000_000_000_000_000_000_000_000;

/// Whether a query coordinate is one that a 64-bit coordinate, or such a
/// coordinate moved by one step of a finite difference, can be.
pub open spec fn query_range(v: int) -> bool {
    -0x8000_0000_0000_0000 <= v <= 0x8000_0000_0000_0000
}

/// The square of the distance between `(x1, y1)` and `(x2, y2)`.
pub open spec fn squared_distance(y1: int, x1: int, y2: int, x2: int) -> int {
    (y1 - y2) * (y1 - y2) + (x1 - x2) * (x1 - x2)
}

/// The weight of a particle at squared distance `r_squared`, for the
/// support radius `h`, without the kernel's constant factor.
pub open spec fn poly6_weight(h: int, r_squared: int) -> int {
    if r_squared > h * h {
        0
    } else {
        (h * h - r_squared) * (h * h - r_squared) * (h * h - r_squared)
    }
}

/// The weight that the particle `p` adds at the point `(x, y)`.
pub open spec fn weight_at(p: Particle, h: int, y: int, x: int) -> int {
    poly6_weight(h, squared_distance(p.y as int, p.x as int, y, x))
}

/// The sum of the weights of all `particles` at the point `(x, y)`.
pub open spec fn kernel_sum(particles: Seq<Particle>, h: int, y: int, x: int) -> int
    decreases particles.len(),
{
    if particles.len() == 0 {
        0
    } else {
        kernel_sum(particles.drop_last(), h, y, x) + weight_at(particles.last(), h, y, x)
    }
}

/// A weight is never negative and never above the sixth power of the radius.
pub proof fn lemma_weight_bounds(h: int, r_squared: int)
    requires
        0 <= h,
        0 <= r_squared,
    ensures
        0 <= poly6_weight(h, r_squared) <= h * h * h * h * h * h,
{
    if r_squared <= h * h {
        let d = h * h - r_squared;
        let m = h * h;
        assert(0 <= d * d * d <= m * m * m) by (nonlinear_arith)
            requires
                0 <= d <= m,
        ;
        assert(m * m * m == h * h * h * h * h * h) by (nonlinear_arith)
            requires
                m == h * h,
        ;
    } else {
        assert(0 <= h * h * h * h * h * h) by (nonlinear_arith)
            requires
                0 <= h,
        ;
    }
}

/// With a radius up to `MAX_RADIUS`, a weight is at most `MAX_WEIGHT`.
pub proof fn lemma_weight_limit(h: int, r_squared: int)
    requires
        0 <= h <= MAX_RADIUS,
        0 <= r_squared,
    ensures
        0 <= poly6_weight(h, r_squared) <= MAX_WEIGHT,
{
    lemma_weight_bounds(h, r_squared);
    assert(h * h * h * h * h * h <= 1_000_000_000_000_000_000_000_000_000_000) by (nonlinear_arith)
        requires
            0 <= h <= 100_000,
    ;
}

/// A square is never negative, so neither is a squared distance.
pub proof fn lemma_squared_distance_nonnegative(y1: int, x1: int, y2: int, x2: int)
    ensures
        0 <= squared_distance(y1, x1, y2, x2),
{
    let dy = y1 - y2;
    let dx = x1 - x2;
    assert(0 <= dy * dy + dx * dx) by (nonlinear_arith);
}

/// A kernel sum lies between zero and `MAX_WEIGHT` for each particle.
pub proof fn lemma_kernel_sum_bounds(particles: Seq<Particle>, h: int, y: int, x: int)
    requires
        0 <= h <= MAX_RADIUS,
    ensures
        0 <= kernel_sum(particles, h, y, x) <= particles.len() * MAX_WEIGHT,
    decreases particles.len(),
{
    if particles.len() > 0 {
        let p = particles.last();
        lemma_kernel_sum_bounds(particles.drop_last(), h, y, x);
        lemma_squared_distance_nonnegative(p.y as int, p.x as int, y, x);
        lemma_weight_limit(h, squared_distance(p.y as int, p.x as int, y, x));
        assert(particles.len() * MAX_WEIGHT == (particles.len() - 1) * MAX_WEIGHT + MAX_WEIGHT)
            by (nonlinear_arith);
    }
}

/// Where every particle is farther from the point than the radius, the
/// kernel sum is zero.
pub proof fn lemma_kernel_sum_far(particles: Seq<Particle>, h: int, y: int, x: int)
    requires
        forall|i: int|
            0 <= i < particles.len() ==> squared_distance(
                (#[trigger] particles[i]).y as int,
                particles[i].x as int,
                y,
                x,
            ) > h * h,
    ensures
        kernel_sum(particles, h, y, x) == 0,
    decreases particles.len(),
{
    if particles.len() > 0 {
        let rest = particles.drop_last();
        assert forall|i: int| 0 <= i < rest.len() implies squared_distance(
            (#[trigger] rest[i]).y as int,
            rest[i].x as int,
            y,
            x,
        ) > h * h by {
            assert(rest[i] == particles[i]);
        }
        lemma_kernel_sum_far(rest, h, y, x);
        let last = particles[particles.len() - 1];
        assert(weight_at(last, h, y, x) == 0);
    }
}

/// Where all particles but the one at `index` are farther from the point
/// than the radius, the kernel sum is the weight of that one particle.
pub proof fn lemma_kernel_sum_single(particles: Seq<Particle>, h: int, y: int, x: int, index: int)
    requires
        0 <= index < particles.len(),
        forall|i: int|
            0 <= i < particles.len() && i != index ==> squared_distance(
                (#[trigger] particles[i]).y as int,
                particles[i].x as int,
                y,
                x,
            ) > h * h,
    ensures
        kernel_sum(particles, h, y, x) == weight_at(particles[index], h, y, x),
    decreases particles.len(),
{
    let rest = particles.drop_last();
    let last = particles[particles.len() - 1];
    assert forall|i: int| 0 <= i < rest.len() && i != index implies squared_distance(
        (#[trigger] rest[i]).y as int,
        rest[i].x as int,
        y,
        x,
    ) > h * h by {
        assert(rest[i] == particles[i]);
    }
    if index == particles.len() - 1 {
        lemma_kernel_sum_far(rest, h, y, x);
    } else {
        lemma_kernel_sum_single(rest, h, y, x, index);
        assert(rest[index] == particles[index]);
        assert(weight_at(last, h, y, x) == 0);
    }
}

/// At the very place of a particle that has no other within the radius,
/// the kernel sum is the sixth power of the radius: the density there is
/// `4 / (pi * h^8) * h^6`.
pub proof fn lemma_kernel_sum_isolated(particles: Seq<Particle>, h: int, index: int)
    requires
        0 <= index < particles.len(),
        forall|i: int|
            0 <= i < particles.len() && i != index ==> squared_distance(
                (#[trigger] particles[i]).y as int,
                particles[i].x as int,
                particles[index].y as int,
                particles[index].x as int,
            ) > h * h,
    ensures
        kernel_sum(particles, h, particles[index].y as int, particles[index].x as int) == h * h * h
            * h * h * h,
{
    let y = particles[index].y as int;
    let x = particles[index].x as int;
    lemma_kernel_sum_single(particles, h, y, x, index);
    assert(squared_distance(y, x, y, x) == 0);
    lemma_weight_ends(h, 0);
}

/// The kernel's weight is the sixth power of the radius at distance zero,
/// and zero at the radius and beyond.
pub proof fn lemma_weight_ends(h: int, r_squared: int)
    ensures
        poly6_weight(h, 0) == h * h * h * h * h * h,
        r_squared >= h * h ==> poly6_weight(h, r_squared) == 0,
{
    assert(0 <= h * h) by (nonlinear_arith);
    assert((h * h - 0) * (h * h - 0) * (h * h - 0) == h * h * h * h * h * h) by (nonlinear_arith);
    if r_squared == h * h {
        assert((h * h - r_squared) * (h * h - r_squared) * (h * h - r_squared) == 0)
            by (nonlinear_arith)
            requires
                h * h - r_squared == 0,
        ;
    }
}

/// The kernel's weight is largest at distance zero and falls, or stays,
/// as the distance grows.
pub proof fn lemma_weight_falls(h: int, near: int, far: int)
    requires
        0 <= near <= far,
    ensures
        poly6_weight(h, far) <= poly6_weight(h, near),
{
    if far <= h * h {
        let a = h * h - far;
        let b = h * h - near;
        assert(a * a * a <= b * b * b) by (nonlinear_arith)
            requires
                0 <= a <= b,
        ;
    } else if near <= h * h {
        let b = h * h - near;
        assert(0 <= b * b * b) by (nonlinear_arith)
            requires
                0 <= b,
        ;
    }
}

/// The squared distance between a stored position and a query point.
pub fn calculate_r(y1: i64, x1: i64, y2: i128, x2: i128) -> (r_squared: u128)
    requires
        within_limit(y1 as int),
        within_limit(x1 as int),
        query_range(y2 as int),
        query_range(x2 as int),
    ensures
        r_squared == squared_distance(y1 as int, x1 as int, y2 as int, x2 as int),
{
    let dis_y: i128 = y1 as i128 - y2;
    let dis_x: i128 = x1 as i128 - x2;
    assert(0 <= dis_y * dis_y <= 0x7000_0000_0000_0000_0000_0000_0000_0000) by (nonlinear_arith)
        requires
            -0xa000_0000_0000_0000 <= dis_y <= 0xa000_0000_0000_0000,
    ;
    assert(0 <= dis_x * dis_x <= 0x7000_0000_0000_0000_0000_0000_0000_0000) by (nonlinear_arith)
        requires
            -0xa000_0000_0000_0000 <= dis_x <= 0xa000_0000_0000_0000,
    ;
    let square_y: i128 = dis_y * dis_y;
    let square_x: i128 = dis_x * dis_x;
    square_y as u128 + square_x as u128
}

/// The difference from a stored position to a query point, vertical part
/// first.
pub fn calculate_direction_vector(p: &Particle, y: i64, x: i64) -> (d: (i128, i128))
    ensures
        d.0 == y - p.y,
        d.1 == x - p.x,
{
    (y as i128 - p.y as i128, x as i128 - p.x as i128)
}

/// The kernel's weight at squared distance `r_squared` for the support
/// radius `h`, without the constant factor.
pub fn poly6(h: i64, r_squared: u128) -> (weight: u128)
    requires
        0 <= h <= MAX_RADIUS,
    ensures
        weight == poly6_weight(h as int, r_squared as int),
        weight <= MAX_WEIGHT,
{
    proof {
        lemma_weight_limit(h as int, r_squared as int);
        assert(0 <= h * h <= 10_000_000_000) by (nonlinear_arith)
            requires
                0 <= h <= 100_000,
        ;
    }
    let h_squared: u128 = (h as u128) * (h as u128);
    if r_squared > h_squared {
        0
    } else {
        let d: u128 = h_squared - r_squared;
        assert(d * d <= 100_000_000_000_000_000_000 && d * d * d
            <= 1_000_000_000_000_000_000_000_000_000_000) by (nonlinear_arith)
            requires
                0 <= d <= 10_000_000_000,
        ;
        d * d * d
    }
}

} // verus!
