//! Fixed-point scale and the clamped ratio used by every strength formula.

use vstd::prelude::*;

verus! {

/// Number of fixed-point steps in 1.0: every value carries four decimal places.
pub const SCALE: i64 = 10_000;

/// Clamps a fixed-point number into the unit interval `[0, SCALE]`.
pub open spec fn unit_clamp(x: int) -> int {
    if x < 0 {
        0
    } else if x > SCALE {
        SCALE as int
    } else {
        x
    }
}

/// The quotient `num / den` clamped into `[0, SCALE]`.
///
/// Every strength a detector reports is such a ratio of two fixed-point
/// quantities.  A ratio that the real-valued formula would drive below zero
/// (negative numerator, or a negative denominator under a positive numerator)
/// clamps to `0`; a vanishing denominator under a positive numerator clamps
/// to `SCALE`, the limit of the growing ratio.
pub open spec fn scaled_ratio(num: int, den: int) -> int {
    if num <= 0 {
        0
    } else if den < 0 {
        0
    } else if den == 0 {
        SCALE as int
    } else {
        unit_clamp(num / den)
    }
}

/// Computes [`scaled_ratio`] on machine integers.
///
/// The widths are chosen so that no caller can overflow it: every numerator
/// the detectors form is a difference of two `i64` values, optionally times
/// `100 * SCALE`, which fits `i128` with room to spare.
pub fn ratio_strength(num: i128, den: i128) -> (r: i64)
    requires
        num >= 0,
    ensures
        r == scaled_ratio(num as int, den as int),
        0 <= r <= SCALE,
{
    if num == 0 {
        0
    } else if den < 0 {
        0
    } else if den == 0 {
        SCALE
    } else {
        let q: u128 = (num as u128) / (den as u128);
        if q >= SCALE as u128 {
            SCALE
        } else {
            q as i64
        }
    }
}

/// Multiplies a difference of two machine words by a small positive factor,
/// which cannot overflow the wide intermediate type.
pub fn widen_mul(diff: i128, factor: i64) -> (r: i128)
    requires
        -0x1_0000_0000_0000_0000 <= diff <= 0x1_0000_0000_0000_0000,
        0 <= factor <= 0x10_0000,
    ensures
        r == diff * factor,
{
    proof {
        assert(-0x10_0000_0000_0000_0000_0000 <= diff * (factor as i128) <= 0x10_0000_0000_0000_0000_0000)
            by (nonlinear_arith)
            requires
                -0x1_0000_0000_0000_0000 <= diff <= 0x1_0000_0000_0000_0000,
                0 <= factor <= 0x10_0000,
        ;
    }
    diff * (factor as i128)
}

} // verus!
