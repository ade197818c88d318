//! Fixed-point units for the normalized control surface.
//!
//! Normalized axis values are integers scaled by [`AXIS_SCALE`]: `AXIS_SCALE`
//! stands for 1.0 (full deflection), `-AXIS_SCALE` for -1.0. Triggers and
//! rumble intensities use the same scale over `[0, AXIS_SCALE]`.

use vstd::prelude::*;

use vstd::arithmetic::div_mod::lemma_div_is_ordered;
use vstd::arithmetic::div_mod::lemma_div_multiples_vanish;
use vstd::arithmetic::div_mod::lemma_div_pos_is_pos;
use vstd::arithmetic::mul::lemma_mul_inequality;

verus! {

/// One full unit of deflection (1.0) in fixed-point micro-units.
pub const AXIS_SCALE: i32 = 1_000_000;

/// A calibrated range narrower than this is treated as degenerate
/// (uncalibrated or wired to a dead axis); it mirrors an epsilon of 0.001
/// on the unit scale.
pub const DEGENERATE_RANGE: i32 = 1_000;

/// A stick-style normalized value: within [-1.0, 1.0].
pub open spec fn in_axis_range(v: int) -> bool {
    -AXIS_SCALE <= v <= AXIS_SCALE
}

/// A trigger- or intensity-style normalized value: within [0.0, 1.0].
pub open spec fn in_trigger_range(v: int) -> bool {
    0 <= v <= AXIS_SCALE
}

/// Clamp `v` into `[lo, hi]`.
pub open spec fn clamp_spec(v: int, lo: int, hi: int) -> int {
    if v < lo {
        lo
    } else if v > hi {
        hi
    } else {
        v
    }
}

/// Clamp a raw value into a closed interval.
pub fn clamp_i32(v: i32, lo: i32, hi: i32) -> (r: i32)
    requires
        lo <= hi,
    ensures
        r == clamp_spec(v as int, lo as int, hi as int),
{
    if v < lo {
        lo
    } else if v > hi {
        hi
    } else {
        v
    }
}

/// Truncating change of scale: `v` out of `den` parts, re-expressed out of
/// `num` parts.
#[verifier::opaque]
pub open spec fn scale_fraction_spec(v: int, num: int, den: int) -> int {
    (v * num) / den
}

/// Re-express a fraction `v / den` as `r / num`, truncating. The result
/// never exceeds `num`.
pub fn scale_fraction(v: u32, num: u32, den: u32) -> (r: u32)
    requires
        v <= den,
        0 < den,
        num <= 1_000_000,
    ensures
        r == scale_fraction_spec(v as int, num as int, den as int),
        r <= num,
{
    proof {
        reveal(scale_fraction_spec);
        lemma_mul_inequality(v as int, den as int, num as int);
        lemma_mul_inequality(den as int, 0xffff_ffff, num as int);
        lemma_div_is_ordered(v as int * num as int, den as int * num as int, den as int);
        lemma_div_multiples_vanish(num as int, den as int);
        lemma_div_pos_is_pos(v as int * num as int, den as int);
    }
    ((v as u64 * num as u64) / den as u64) as u32
}

/// Sign-magnitude form of [`scale_fraction_spec`], truncating toward zero
/// as a hardware-style conversion does.
#[verifier::opaque]
pub open spec fn scale_signed_spec(v: int, num: int, den: int) -> int {
    if v >= 0 {
        (v * num) / den
    } else {
        -((-v * num) / den)
    }
}

/// Re-express a signed fraction `v / den` as `r / num`, truncating toward
/// zero. The result stays within `[-num, num]`.
pub fn scale_signed(v: i32, num: u32, den: u32) -> (r: i32)
    requires
        -den <= v <= den,
        0 < den <= 0x4000_0000,
        num <= 1_000_000,
    ensures
        r == scale_signed_spec(v as int, num as int, den as int),
        -num <= r <= num,
{
    proof {
        reveal(scale_signed_spec);
        reveal(scale_fraction_spec);
    }
    if v >= 0 {
        scale_fraction(v as u32, num, den) as i32
    } else {
        -(scale_fraction((-v) as u32, num, den) as i32)
    }
}

} // verus!

