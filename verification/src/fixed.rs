//! Fixed-point arithmetic.
//!
//! Lengths and speeds are whole numbers of micro-units, times are whole
//! microseconds. Products and quotients are computed exactly in wider
//! integers, quotients are rounded towards zero, and a result that is stored
//! in 64 bits is held at the nearest end of that range.

use vstd::prelude::*;

verus! {

/// One world unit, and one second, in the unit of the stored numbers.
pub const UNIT: i64 = 1_000_000;

/// The quotient of `p` by `d > 0`, rounded towards zero.
pub open spec fn trunc_div(p: int, d: int) -> int {
    if p >= 0 {
        p / d
    } else {
        -((-p) / d)
    }
}

/// `x` held within the range of a signed 64-bit number.
pub open spec fn saturate(x: int) -> i64 {
    if x < i64::MIN {
        i64::MIN
    } else if x > i64::MAX {
        i64::MAX
    } else {
        x as i64
    }
}

/// `x` held within `lo ..= hi`.
pub open spec fn clamp(x: int, lo: int, hi: int) -> int {
    if x < lo {
        lo
    } else if x > hi {
        hi
    } else {
        x
    }
}

/// `value * numerator / denominator`, exact but for the rounding of the
/// quotient towards zero.
pub fn scale(value: i64, numerator: u64, denominator: u64) -> (r: i128)
    requires
        denominator > 0,
    ensures
        r == trunc_div(value * numerator, denominator as int),
        -0x7fff_ffff_ffff_ffff_8000_0000_0000_0000 <= r <= 0x7fff_ffff_ffff_ffff_8000_0000_0000_0000,
{
    let magnitude: u128 = if value < 0 {
        (-(value as i128)) as u128
    } else {
        value as u128
    };
    assert(magnitude * numerator <= 0x8000_0000_0000_0000 * 0xffff_ffff_ffff_ffff) by (nonlinear_arith)
        requires
            0 <= magnitude <= 0x8000_0000_0000_0000,
            0 <= numerator <= 0xffff_ffff_ffff_ffff,
    ;
    let product: u128 = magnitude * (numerator as u128);
    let quotient: u128 = product / (denominator as u128);
    proof {
        assert(quotient <= product) by (nonlinear_arith)
            requires
                quotient == product / (denominator as u128),
                denominator > 0,
                product >= 0,
        ;
        if value < 0 {
            assert(-(value * numerator) == magnitude * numerator) by (nonlinear_arith)
                requires
                    magnitude == -value,
            ;
            assert(value * numerator <= 0) by (nonlinear_arith)
                requires
                    value < 0,
                    numerator >= 0,
            ;
        } else {
            assert(value * numerator >= 0) by (nonlinear_arith)
                requires
                    value >= 0,
                    numerator >= 0,
            ;
        }
    }
    if value < 0 {
        -(quotient as i128)
    } else {
        quotient as i128
    }
}

/// `x` held within the range of a signed 64-bit number.
pub fn saturating(x: i128) -> (r: i64)
    ensures
        r == saturate(x as int),
{
    if x < i64::MIN as i128 {
        i64::MIN
    } else if x > i64::MAX as i128 {
        i64::MAX
    } else {
        x as i64
    }
}

} // verus!
