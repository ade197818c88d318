//! Calibration records: per-control axis and button bindings, and the
//! profile that collects them.
//!
//! An [`AxisBinding`] maps a physical axis's calibrated raw range
//! `[min_value, max_value]` linearly onto the normalized control surface:
//! [`AxisBinding::normalize`] onto `[-AXIS_SCALE, AXIS_SCALE]` (sticks),
//! [`AxisBinding::normalize_trigger`] onto `[0, AXIS_SCALE]` (pedals). Both
//! clamp out-of-range raw values and collapse a degenerate range to 0.

use vstd::prelude::*;

use crate::units::AXIS_SCALE;
use crate::units::DEGENERATE_RANGE;
use crate::units::clamp_spec;
use crate::units::clamp_i32;
use crate::units::in_axis_range;
use crate::units::in_trigger_range;
use vstd::arithmetic::div_mod::lemma_div_is_ordered;
use vstd::arithmetic::div_mod::lemma_div_multiples_vanish;
use vstd::arithmetic::div_mod::lemma_div_pos_is_pos;
use vstd::arithmetic::mul::lemma_mul_inequality;

verus! {

/// Calibration record for one logical axis (steering, throttle, brake,
/// clutch): which device and axis it reads, the raw range observed during
/// calibration, and whether the wiring runs backwards.
#[derive(Debug, Clone)]
pub struct AxisBinding {
    /// Identifier of the physical device the axis lives on.
    pub device_id: String,
    /// Human-readable device name, for display only.
    pub device_name: String,
    /// The axis code on that device.
    pub axis_code: u32,
    /// Smallest raw value captured during calibration.
    pub min_value: i32,
    /// Largest raw value captured during calibration.
    pub max_value: i32,
    /// Whether the axis direction is reversed relative to the logical control.
    pub inverted: bool,
}

impl AxisBinding {
    /// Calibration always orders the captured extremes.
    pub open spec fn wf(self) -> bool {
        self.min_value <= self.max_value
    }

    /// A range too narrow to calibrate against: both captures landed on
    /// (nearly) the same raw value.
    pub open spec fn degenerate(self) -> bool {
        self.max_value - self.min_value < DEGENERATE_RANGE
    }

    /// The stick mapping: raw range onto `[-AXIS_SCALE, AXIS_SCALE]`,
    /// clamping, 0 on a degenerate range, negated when inverted.
    pub open spec fn normalize_spec(self, raw: int) -> int {
        let range = self.max_value - self.min_value;
        if range < DEGENERATE_RANGE {
            0
        } else {
            let c = clamp_spec(raw, self.min_value as int, self.max_value as int);
            let t = ((c - self.min_value) * 2 * AXIS_SCALE) / range - AXIS_SCALE;
            if self.inverted {
                -t
            } else {
                t
            }
        }
    }

    /// The trigger mapping: raw range onto `[0, AXIS_SCALE]`, clamping,
    /// 0 on a degenerate range, reversed when inverted.
    pub open spec fn normalize_trigger_spec(self, raw: int) -> int {
        let range = self.max_value - self.min_value;
        if range < DEGENERATE_RANGE {
            0
        } else {
            let c = clamp_spec(raw, self.min_value as int, self.max_value as int);
            let t = ((c - self.min_value) * AXIS_SCALE) / range;
            if self.inverted {
                AXIS_SCALE - t
            } else {
                t
            }
        }
    }

    /// Normalize a raw value onto the stick range `[-AXIS_SCALE, AXIS_SCALE]`.
    ///
    /// Total: a reversed or near-empty range counts as degenerate and maps
    /// everything to 0.
    pub fn normalize(&self, raw_value: i32) -> (r: i32)
        ensures
            r == self.normalize_spec(raw_value as int),
            in_axis_range(r as int),
    {
        let min = self.min_value;
        let max = self.max_value;
        let range = max as i64 - min as i64;
        if range < DEGENERATE_RANGE as i64 {
            return 0;
        }
        let c = clamp_i32(raw_value, min, max);
        let offset = (c as i64 - min as i64) as u64;
        let range_u = range as u64;
        let two_scale: u64 = 2_000_000;
        proof {
            lemma_mul_inequality(offset as int, range_u as int, two_scale as int);
            lemma_mul_inequality(range_u as int, 0xffff_ffff, two_scale as int);
            lemma_div_is_ordered(offset as int * two_scale, range_u as int * two_scale, range_u as int);
            lemma_div_multiples_vanish(two_scale as int, range_u as int);
            lemma_div_pos_is_pos(offset as int * two_scale, range_u as int);
        }
        let q = (offset * two_scale) / range_u;
        let t = q as i64 - AXIS_SCALE as i64;
        let r = if self.inverted {
            -t
        } else {
            t
        };
        r as i32
    }

    /// Normalize a raw value onto the trigger range `[0, AXIS_SCALE]`.
    ///
    /// Total: a reversed or near-empty range counts as degenerate and maps
    /// everything to 0.
    pub fn normalize_trigger(&self, raw_value: i32) -> (r: i32)
        ensures
            r == self.normalize_trigger_spec(raw_value as int),
            in_trigger_range(r as int),
    {
        let min = self.min_value;
        let max = self.max_value;
        let range = max as i64 - min as i64;
        if range < DEGENERATE_RANGE as i64 {
            return 0;
        }
        let c = clamp_i32(raw_value, min, max);
        let offset = (c as i64 - min as i64) as u64;
        let range_u = range as u64;
        let scale: u64 = 1_000_000;
        proof {
            lemma_mul_inequality(offset as int, range_u as int, scale as int);
            lemma_mul_inequality(range_u as int, 0xffff_ffff, scale as int);
            lemma_div_is_ordered(offset as int * scale, range_u as int * scale, range_u as int);
            lemma_div_multiples_vanish(scale as int, range_u as int);
            lemma_div_pos_is_pos(offset as int * scale, range_u as int);
        }
        let q = (offset * scale) / range_u;
        let t = q as i64;
        let r = if self.inverted {
            AXIS_SCALE as i64 - t
        } else {
            t
        };
        r as i32
    }
}

/// Both mappings return exactly 0 whenever the calibrated range is
/// degenerate, for every raw input.
pub proof fn lemma_normalize_degenerate(b: AxisBinding, raw: int)
    requires
        b.wf(),
        b.degenerate(),
    ensures
        b.normalize_spec(raw) == 0,
        b.normalize_trigger_spec(raw) == 0,
{
}

/// Both mappings are monotonic over the calibrated range: a raw value at
/// least as large maps at least as high (direction reversed on an inverted
/// binding).
pub proof fn lemma_normalize_monotonic(b: AxisBinding, raw1: int, raw2: int)
    requires
        b.wf(),
        b.min_value <= raw1 <= raw2 <= b.max_value,
    ensures
        !b.inverted ==> b.normalize_spec(raw1) <= b.normalize_spec(raw2),
        !b.inverted ==> b.normalize_trigger_spec(raw1) <= b.normalize_trigger_spec(raw2),
        b.inverted ==> b.normalize_spec(raw1) >= b.normalize_spec(raw2),
        b.inverted ==> b.normalize_trigger_spec(raw1) >= b.normalize_trigger_spec(raw2),
{
    let range = b.max_value - b.min_value;
    if range >= DEGENERATE_RANGE {
        lemma_div_is_ordered(
            (raw1 - b.min_value) * 2 * AXIS_SCALE,
            (raw2 - b.min_value) * 2 * AXIS_SCALE,
            range,
        );
        lemma_div_is_ordered(
            (raw1 - b.min_value) * AXIS_SCALE,
            (raw2 - b.min_value) * AXIS_SCALE,
            range,
        );
    }
}

/// The calibrated extremes map exactly onto the ends of the normalized
/// ranges: `min_value` to 0 and `max_value` to `AXIS_SCALE` for triggers
/// (`-AXIS_SCALE`/`AXIS_SCALE` for sticks), with the two ends exchanged on
/// an inverted binding.
pub proof fn lemma_normalize_endpoints(b: AxisBinding)
    requires
        b.wf(),
        !b.degenerate(),
    ensures
        !b.inverted ==> b.normalize_trigger_spec(b.min_value as int) == 0,
        !b.inverted ==> b.normalize_trigger_spec(b.max_value as int) == AXIS_SCALE,
        b.inverted ==> b.normalize_trigger_spec(b.min_value as int) == AXIS_SCALE,
        b.inverted ==> b.normalize_trigger_spec(b.max_value as int) == 0,
        !b.inverted ==> b.normalize_spec(b.min_value as int) == -AXIS_SCALE,
        !b.inverted ==> b.normalize_spec(b.max_value as int) == AXIS_SCALE,
        b.inverted ==> b.normalize_spec(b.min_value as int) == AXIS_SCALE,
        b.inverted ==> b.normalize_spec(b.max_value as int) == -AXIS_SCALE,
{
    let range = b.max_value - b.min_value;
    lemma_div_multiples_vanish(0, range);
    assert(range * 0 == 0);
    lemma_div_multiples_vanish(AXIS_SCALE as int, range);
    lemma_div_multiples_vanish(2 * AXIS_SCALE, range);
    assert((b.max_value - b.min_value) * AXIS_SCALE == range * AXIS_SCALE);
    assert((b.max_value - b.min_value) * 2 * AXIS_SCALE == range * (2 * AXIS_SCALE));
}

/// Calibration record for one logical button (shift up, shift down).
#[derive(Debug, Clone)]
pub struct ButtonBinding {
    /// Identifier of the physical device the button lives on.
    pub device_id: String,
    /// Human-readable device name, for display only.
    pub device_name: String,
    /// The button code on that device.
    pub button_code: u32,
}

/// The full calibration profile: the axis and button bindings the per-frame
/// mapping needs, plus an optional force-feedback output device.
#[derive(Debug, Clone)]
pub struct WheelConfig {
    /// Steering wheel axis (drives the left stick X).
    pub steering: Option<AxisBinding>,
    /// Throttle pedal (drives the right trigger).
    pub throttle: Option<AxisBinding>,
    /// Brake pedal (drives the left trigger).
    pub brake: Option<AxisBinding>,
    /// Clutch pedal (drives the left stick Y); optional.
    pub clutch: Option<AxisBinding>,
    /// Shift-up button (drives the Y button).
    pub shift_up: Option<ButtonBinding>,
    /// Shift-down button (drives the X button).
    pub shift_down: Option<ButtonBinding>,
    /// Device to receive force-feedback output, if one was chosen.
    pub force_feedback_device: Option<String>,
}

impl WheelConfig {
    /// Every axis binding present keeps its extremes ordered.
    pub open spec fn wf(self) -> bool {
        &&& (self.steering matches Some(b) ==> b.wf())
        &&& (self.throttle matches Some(b) ==> b.wf())
        &&& (self.brake matches Some(b) ==> b.wf())
        &&& (self.clutch matches Some(b) ==> b.wf())
    }

    /// Completeness: every mandatory control is bound. The clutch and the
    /// force-feedback device are optional and play no part.
    pub open spec fn complete_spec(self) -> bool {
        &&& self.steering is Some
        &&& self.throttle is Some
        &&& self.brake is Some
        &&& self.shift_up is Some
        &&& self.shift_down is Some
    }

    /// At least one control is bound.
    pub open spec fn partially_configured_spec(self) -> bool {
        ||| self.steering is Some
        ||| self.throttle is Some
        ||| self.brake is Some
        ||| self.clutch is Some
        ||| self.shift_up is Some
        ||| self.shift_down is Some
    }

    /// Whether every mandatory binding is present: steering, throttle,
    /// brake, shift up and shift down. True or false exactly as
    /// [`Self::complete_spec`] says; a missing clutch does not matter.
    pub fn is_complete(&self) -> (r: bool)
        ensures
            r == self.complete_spec(),
    {
        self.steering.is_some() && self.throttle.is_some() && self.brake.is_some()
            && self.shift_up.is_some() && self.shift_down.is_some()
    }

    /// Whether any binding at all is present.
    pub fn is_partially_configured(&self) -> (r: bool)
        ensures
            r == self.partially_configured_spec(),
    {
        self.steering.is_some() || self.throttle.is_some() || self.brake.is_some()
            || self.clutch.is_some() || self.shift_up.is_some() || self.shift_down.is_some()
    }
}

impl Default for WheelConfig {
    /// An empty profile: nothing bound yet.
    fn default() -> (r: Self)
        ensures
            r.steering is None,
            r.throttle is None,
            r.brake is None,
            r.clutch is None,
            r.shift_up is None,
            r.shift_down is None,
            r.force_feedback_device is None,
    {
        WheelConfig {
            steering: None,
            throttle: None,
            brake: None,
            clutch: None,
            shift_up: None,
            shift_down: None,
            force_feedback_device: None,
        }
    }
}

} // verus!
