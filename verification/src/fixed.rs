//! Fixed-point scalars for page geometry.
//!
//! Every coordinate, glyph size and matrix coefficient in this library is an
//! `i64` holding thousandths of a text space unit, so that the layout
//! thresholds (which need half-unit precision) are exact integers. The
//! caller converts the document's native numbers to thousandths before
//! handing them in. Arithmetic saturates at the `i64` bounds.

use vstd::prelude::*;

verus! {

/// A length or coordinate, in thousandths of a text space unit.
pub type Milli = i64;

/// Number of fixed-point steps per text space unit.
pub const MILLI_SCALE: i64 = 1000;

/// `v` clipped to the `i64` range.
pub open spec fn clip64(v: int) -> int {
    if v > i64::MAX {
        i64::MAX as int
    } else if v < i64::MIN {
        i64::MIN as int
    } else {
        v
    }
}

/// Division by the fixed-point scale, truncating toward zero.
pub open spec fn tdiv_scale(p: int) -> int {
    if p >= 0 {
        p / (MILLI_SCALE as int)
    } else {
        -((-p) / (MILLI_SCALE as int))
    }
}

/// The product of two fixed-point values: the mathematical product, scaled
/// back down, truncated toward zero, and clipped to the `i64` range.
pub open spec fn spec_milli_mul(x: int, y: int) -> int {
    clip64(tdiv_scale(x * y))
}

/// The sum of two fixed-point values, clipped to the `i64` range.
pub open spec fn spec_sat_add(x: int, y: int) -> int {
    clip64(x + y)
}

/// Multiplies two fixed-point values, saturating at the `i64` bounds.
pub fn milli_mul(x: Milli, y: Milli) -> (r: Milli)
    ensures
        r as int == spec_milli_mul(x as int, y as int),
{
    let xi: i128 = x as i128;
    let yi: i128 = y as i128;
    proof {
        assert((xi as int) * (yi as int) <= 85070591730234615865843651857942052864int
            && (xi as int) * (yi as int) >= -85070591730234615865843651857942052864int)
            by (nonlinear_arith)
            requires
                -9223372036854775808 <= xi as int <= 9223372036854775807,
                -9223372036854775808 <= yi as int <= 9223372036854775807,
        ;
    }
    let p: i128 = xi * yi;
    let q: i128 = if p >= 0 {
        let m: u128 = p as u128;
        (m / 1000) as i128
    } else {
        let m: u128 = (-p) as u128;
        -((m / 1000) as i128)
    };
    if q > i64::MAX as i128 {
        i64::MAX
    } else if q < i64::MIN as i128 {
        i64::MIN
    } else {
        q as i64
    }
}

/// Adds two fixed-point values, saturating at the `i64` bounds.
pub fn sat_add(x: Milli, y: Milli) -> (r: Milli)
    ensures
        r as int == spec_sat_add(x as int, y as int),
{
    let s: i128 = (x as i128) + (y as i128);
    if s > i64::MAX as i128 {
        i64::MAX
    } else if s < i64::MIN as i128 {
        i64::MIN
    } else {
        s as i64
    }
}

} // verus!
