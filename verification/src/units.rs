//! Fixed-point units and the arithmetic that keeps values inside them.

use vstd::prelude::*;

verus! {

/// Fixed-point units in one whole unit of length, of speed or of time.
pub const UNITS_PER_ONE: i64 = 1000;

/// Largest magnitude that a stored coordinate or velocity component can
/// have. Results of arithmetic beyond it are pinned to it.
pub const LIMIT: i64 = 1_000_000_000_000_000_000;

/// Whether `v` is a value that a particle component can hold.
pub open spec fn within_limit(v: int) -> bool {
    -LIMIT <= v <= LIMIT
}

/// `v` pinned to the range from `-LIMIT` to `LIMIT`.
pub open spec fn saturated(v: int) -> int {
    if v < -LIMIT {
        -(LIMIT as int)
    } else if v > LIMIT {
        LIMIT as int
    } else {
        v
    }
}

/// The quotient of `n` by a positive `d`, rounded toward zero.
pub open spec fn truncated_quotient(n: int, d: int) -> int
    recommends
        d > 0,
{
    if n >= 0 {
        n / d
    } else {
        -((-n) / d)
    }
}

/// The fixed-point product of two fixed-point values: their integer product
/// brought back to one scale, rounded toward zero.
pub open spec fn scaled_product(a: int, b: int) -> int {
    truncated_quotient(a * b, UNITS_PER_ONE as int)
}

/// Pins a wide intermediate result to the storable range.
pub fn saturate(v: i128) -> (r: i64)
    ensures
        r == saturated(v as int),
        within_limit(r as int),
{
    if v < -(LIMIT as i128) {
        -LIMIT
    } else if v > LIMIT as i128 {
        LIMIT
    } else {
        v as i64
    }
}

/// The product of any two 64-bit values fits in 128 bits.
pub proof fn lemma_product_fits(a: int, b: int)
    requires
        i64::MIN <= a <= i64::MAX,
        i64::MIN <= b <= i64::MAX,
    ensures
        -0x4000_0000_0000_0000_0000_0000_0000_0000 <= a * b
            <= 0x4000_0000_0000_0000_0000_0000_0000_0000,
{
    assert(-0x4000_0000_0000_0000_0000_0000_0000_0000 <= a * b
        <= 0x4000_0000_0000_0000_0000_0000_0000_0000) by (nonlinear_arith)
        requires
            -0x8000_0000_0000_0000 <= a <= 0x8000_0000_0000_0000,
            -0x8000_0000_0000_0000 <= b <= 0x8000_0000_0000_0000,
    ;
}

/// Computes the fixed-point product of `a` and `b`.
pub fn scale_product(a: i64, b: i64) -> (r: i128)
    ensures
        r == scaled_product(a as int, b as int),
        -0x4000_0000_0000_0000_0000_0000_0000_0000 <= r
            <= 0x4000_0000_0000_0000_0000_0000_0000_0000,
{
    proof {
        lemma_product_fits(a as int, b as int);
    }
    let product: i128 = (a as i128) * (b as i128);
    if product >= 0 {
        product / (UNITS_PER_ONE as i128)
    } else {
        let magnitude: i128 = -product;
        -(magnitude / (UNITS_PER_ONE as i128))
    }
}

} // verus!
