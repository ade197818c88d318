//! Input-side data model: the events an input aggregator reports and the
//! point-in-time snapshot of every device's axes and buttons.
//!
//! Axis values arrive already normalized onto the fixed-point unit range
//! (see [`crate::units`]); [`raw_to_unit`] is the mapping a reader applies
//! to get them there from a device's raw absolute-axis range.

use vstd::prelude::*;

use crate::units::AXIS_SCALE;
use crate::units::in_axis_range;
use vstd::arithmetic::div_mod::lemma_div_is_ordered;
use vstd::arithmetic::div_mod::lemma_div_multiples_vanish;
use vstd::arithmetic::div_mod::lemma_div_pos_is_pos;
use vstd::arithmetic::mul::lemma_mul_inequality;

verus! {

/// One axis a device advertises.
#[derive(Debug, Clone)]
pub struct AxisInfo {
    /// The axis code on the device.
    pub code: u32,
    /// Display name of the axis.
    pub name: String,
}

/// One button a device advertises.
#[derive(Debug, Clone)]
pub struct ButtonInfo {
    /// The button code on the device.
    pub code: u32,
    /// Display name of the button.
    pub name: String,
}

/// A connected physical input device.
#[derive(Debug, Clone)]
pub struct InputDevice {
    /// Identifier the aggregator assigned to the device.
    pub id: String,
    /// Human-readable device name.
    pub name: String,
    /// The axes the device advertises.
    pub axes: Vec<AxisInfo>,
    /// The buttons the device advertises.
    pub buttons: Vec<ButtonInfo>,
    /// Whether the device can play force-feedback effects.
    pub has_force_feedback: bool,
}

/// One event from the input aggregator.
#[derive(Debug, Clone)]
pub enum InputEvent {
    /// An axis settled on a new normalized value.
    AxisMoved { device_id: String, device_name: String, axis_code: u32, value: i32 },
    /// A button went down.
    ButtonPressed { device_id: String, device_name: String, button_code: u32 },
    /// A button came back up.
    ButtonReleased { device_id: String, device_name: String, button_code: u32 },
    /// A device appeared.
    DeviceConnected { device: InputDevice },
    /// A device went away.
    DeviceDisconnected { device_id: String },
}

impl InputEvent {
    /// Axis values are normalized onto the unit range before they reach
    /// this crate.
    pub open spec fn wf(self) -> bool {
        self matches InputEvent::AxisMoved { value, .. } ==> in_axis_range(value as int)
    }
}

/// Latest known value of one axis on one device.
#[derive(Debug, Clone)]
pub struct AxisSample {
    /// Identifier of the device.
    pub device_id: String,
    /// The axis code on that device.
    pub axis_code: u32,
    /// Latest normalized value.
    pub value: i32,
}

/// Latest known state of one button on one device.
#[derive(Debug, Clone)]
pub struct ButtonSample {
    /// Identifier of the device.
    pub device_id: String,
    /// The button code on that device.
    pub button_code: u32,
    /// Whether the button is currently down.
    pub pressed: bool,
}

/// Whether `s` records axis `code` of device `dev`.
pub open spec fn axis_sample_matches(s: AxisSample, dev: Seq<char>, code: u32) -> bool {
    s.device_id@ == dev && s.axis_code == code
}

/// Whether `s` records button `code` of device `dev`.
pub open spec fn button_sample_matches(s: ButtonSample, dev: Seq<char>, code: u32) -> bool {
    s.device_id@ == dev && s.button_code == code
}

/// At most one sample per (device, axis) pair.
pub open spec fn axis_samples_unique(s: Seq<AxisSample>) -> bool {
    forall|i: int, j: int|
        0 <= i < j < s.len() ==> !(#[trigger] axis_sample_matches(
            s[i],
            s[j].device_id@,
            s[j].axis_code,
        ))
}

/// At most one sample per (device, button) pair.
pub open spec fn button_samples_unique(s: Seq<ButtonSample>) -> bool {
    forall|i: int, j: int|
        0 <= i < j < s.len() ==> !(#[trigger] button_sample_matches(
            s[i],
            s[j].device_id@,
            s[j].button_code,
        ))
}

/// The first sample in `s` for axis `code` of device `dev`, if any.
/// Under [`axis_samples_unique`] it is also the only one.
pub open spec fn axis_lookup(s: Seq<AxisSample>, dev: Seq<char>, code: u32) -> Option<i32>
    decreases s.len(),
{
    if s.len() == 0 {
        None
    } else if axis_sample_matches(s[0], dev, code) {
        Some(s[0].value)
    } else {
        axis_lookup(s.drop_first(), dev, code)
    }
}

/// The first sample in `s` for button `code` of device `dev`, if any.
pub open spec fn button_lookup(s: Seq<ButtonSample>, dev: Seq<char>, code: u32) -> Option<bool>
    decreases s.len(),
{
    if s.len() == 0 {
        None
    } else if button_sample_matches(s[0], dev, code) {
        Some(s[0].pressed)
    } else {
        button_lookup(s.drop_first(), dev, code)
    }
}

/// Point-in-time snapshot of every tracked axis and button, queryable by
/// (device, code). Later samples for a pair replace earlier ones.
pub struct InputState {
    axes: Vec<AxisSample>,
    buttons: Vec<ButtonSample>,
}

impl InputState {
    /// Each (device, code) pair appears at most once.
    pub closed spec fn wf(self) -> bool {
        axis_samples_unique(self.axes@) && button_samples_unique(self.buttons@)
    }

    /// The recorded axis samples.
    pub closed spec fn axes_seq(self) -> Seq<AxisSample> {
        self.axes@
    }

    /// The recorded button samples.
    pub closed spec fn buttons_seq(self) -> Seq<ButtonSample> {
        self.buttons@
    }

    /// An empty snapshot: nothing known yet.
    pub fn new() -> (r: Self)
        ensures
            r.wf(),
            r.axes_seq() =~= Seq::<AxisSample>::empty(),
            r.buttons_seq() =~= Seq::<ButtonSample>::empty(),
    {
        InputState { axes: Vec::new(), buttons: Vec::new() }
    }

    /// Latest normalized value of axis `axis_code` on device `device_id`,
    /// or `None` when that axis was never reported.
    #[verifier::loop_isolation(false)]
    pub fn get_axis(&self, device_id: &String, axis_code: u32) -> (r: Option<i32>)
        ensures
            r == axis_lookup(self.axes_seq(), device_id@, axis_code),
    {
        let n = self.axes.len();
        let mut i: usize = 0;
        proof {
            assert(self.axes@.skip(0) =~= self.axes@);
        }
        while i < n
            invariant
                i <= n,
                axis_lookup(self.axes@, device_id@, axis_code) == axis_lookup(
                    self.axes@.skip(i as int),
                    device_id@,
                    axis_code,
                ),
            decreases n - i,
        {
            let s = &self.axes[i];
            proof {
                assert(self.axes@.skip(i as int)[0] == self.axes@[i as int]);
            }
            if s.axis_code == axis_code && s.device_id == *device_id {
                proof {
                    assert(axis_sample_matches(self.axes@.skip(i as int)[0], device_id@, axis_code));
                }
                return Some(s.value);
            }
            proof {
                assert(self.axes@.skip(i as int).drop_first() =~= self.axes@.skip(i as int + 1));
            }
            i += 1;
        }
        proof {
            assert(self.axes@.skip(n as int) =~= Seq::<AxisSample>::empty());
        }
        None
    }

    /// Latest state of button `button_code` on device `device_id`, or
    /// `None` when that button was never reported.
    #[verifier::loop_isolation(false)]
    pub fn get_button(&self, device_id: &String, button_code: u32) -> (r: Option<bool>)
        ensures
            r == button_lookup(self.buttons_seq(), device_id@, button_code),
    {
        let n = self.buttons.len();
        let mut i: usize = 0;
        proof {
            assert(self.buttons@.skip(0) =~= self.buttons@);
        }
        while i < n
            invariant
                i <= n,
                button_lookup(self.buttons@, device_id@, button_code) == button_lookup(
                    self.buttons@.skip(i as int),
                    device_id@,
                    button_code,
                ),
            decreases n - i,
        {
            let s = &self.buttons[i];
            proof {
                assert(self.buttons@.skip(i as int)[0] == self.buttons@[i as int]);
            }
            if s.button_code == button_code && s.device_id == *device_id {
                proof {
                    assert(button_sample_matches(
                        self.buttons@.skip(i as int)[0],
                        device_id@,
                        button_code,
                    ));
                }
                return Some(s.pressed);
            }
            proof {
                assert(self.buttons@.skip(i as int).drop_first() =~= self.buttons@.skip(
                    i as int + 1,
                ));
            }
            i += 1;
        }
        proof {
            assert(self.buttons@.skip(n as int) =~= Seq::<ButtonSample>::empty());
        }
        None
    }

    /// Record a new value for an axis: the sample for that (device, axis)
    /// pair is replaced, or appended when the pair is new; every other
    /// sample stays as it was.
    #[verifier::loop_isolation(false)]
    pub fn set_axis(&mut self, sample: AxisSample)
        requires
            old(self).wf(),
        ensures
            final(self).wf(),
            final(self).buttons_seq() == old(self).buttons_seq(),
            final(self).axes_seq().len() >= old(self).axes_seq().len(),
            exists|j: int|
                0 <= j < final(self).axes_seq().len() && axis_sample_matches(
                    #[trigger] final(self).axes_seq()[j],
                    sample.device_id@,
                    sample.axis_code,
                ) && final(self).axes_seq()[j].value == sample.value,
            forall|j: int|
                0 <= j < old(self).axes_seq().len() && !axis_sample_matches(
                    #[trigger] old(self).axes_seq()[j],
                    sample.device_id@,
                    sample.axis_code,
                ) ==> final(self).axes_seq()[j] == old(self).axes_seq()[j],
    {
        let ghost samp = sample;
        let n = self.axes.len();
        let mut i: usize = 0;
        while i < n
            invariant
                self == old(self),
                n == self.axes.len(),
                i <= n,
                forall|j: int|
                    0 <= j < i ==> !axis_sample_matches(
                        #[trigger] self.axes@[j],
                        samp.device_id@,
                        samp.axis_code,
                    ),
            decreases n - i,
        {
            let matched = self.axes[i].axis_code == sample.axis_code && self.axes[i].device_id
                == sample.device_id;
            if matched {
                self.axes[i] = sample;
                proof {
                    let s_old = old(self).axes@;
                    let s_new = self.axes@;
                    assert(axis_sample_matches(s_old[i as int], samp.device_id@, samp.axis_code));
                    assert(axis_sample_matches(
                        self.axes_seq()[i as int],
                        samp.device_id@,
                        samp.axis_code,
                    ));
                    assert forall|p: int, q: int| 0 <= p < q < s_new.len() implies !(
                    axis_sample_matches(s_new[p], s_new[q].device_id@, s_new[q].axis_code)) by {
                        if q == i {
                            assert(!axis_sample_matches(s_old[p], s_old[i as int].device_id@, s_old[i as int].axis_code));
                        } else if p == i {
                            assert(!axis_sample_matches(s_old[i as int], s_old[q].device_id@, s_old[q].axis_code));
                        } else {
                            assert(!axis_sample_matches(s_old[p], s_old[q].device_id@, s_old[q].axis_code));
                        }
                    }
                }
                return ;
            }
            i += 1;
        }
        self.axes.push(sample);
        proof {
            let s_old = old(self).axes@;
            let s_new = self.axes@;
            assert(axis_sample_matches(self.axes_seq()[n as int], samp.device_id@, samp.axis_code));
            assert forall|p: int, q: int| 0 <= p < q < s_new.len() implies !(axis_sample_matches(
                s_new[p],
                s_new[q].device_id@,
                s_new[q].axis_code,
            )) by {
                if q == n {
                    assert(!axis_sample_matches(s_old[p], samp.device_id@, samp.axis_code));
                } else {
                    assert(!axis_sample_matches(s_old[p], s_old[q].device_id@, s_old[q].axis_code));
                }
            }
        }
    }

    /// Record a new state for a button, in the same replace-or-append way
    /// as [`Self::set_axis`].
    #[verifier::loop_isolation(false)]
    pub fn set_button(&mut self, sample: ButtonSample)
        requires
            old(self).wf(),
        ensures
            final(self).wf(),
            final(self).axes_seq() == old(self).axes_seq(),
            final(self).buttons_seq().len() >= old(self).buttons_seq().len(),
            exists|j: int|
                0 <= j < final(self).buttons_seq().len() && button_sample_matches(
                    #[trigger] final(self).buttons_seq()[j],
                    sample.device_id@,
                    sample.button_code,
                ) && final(self).buttons_seq()[j].pressed == sample.pressed,
            forall|j: int|
                0 <= j < old(self).buttons_seq().len() && !button_sample_matches(
                    #[trigger] old(self).buttons_seq()[j],
                    sample.device_id@,
                    sample.button_code,
                ) ==> final(self).buttons_seq()[j] == old(self).buttons_seq()[j],
    {
        let ghost samp = sample;
        let n = self.buttons.len();
        let mut i: usize = 0;
        while i < n
            invariant
                self == old(self),
                n == self.buttons.len(),
                i <= n,
                forall|j: int|
                    0 <= j < i ==> !button_sample_matches(
                        #[trigger] self.buttons@[j],
                        samp.device_id@,
                        samp.button_code,
                    ),
            decreases n - i,
        {
            let matched = self.buttons[i].button_code == sample.button_code && self.buttons[i].device_id
                == sample.device_id;
            if matched {
                self.buttons[i] = sample;
                proof {
                    let s_old = old(self).buttons@;
                    let s_new = self.buttons@;
                    assert(button_sample_matches(s_old[i as int], samp.device_id@, samp.button_code));
                    assert(button_sample_matches(
                        self.buttons_seq()[i as int],
                        samp.device_id@,
                        samp.button_code,
                    ));
                    assert forall|p: int, q: int| 0 <= p < q < s_new.len() implies !(
                    button_sample_matches(s_new[p], s_new[q].device_id@, s_new[q].button_code)) by {
                        if q == i {
                            assert(!button_sample_matches(s_old[p], s_old[i as int].device_id@, s_old[i as int].button_code));
                        } else if p == i {
                            assert(!button_sample_matches(s_old[i as int], s_old[q].device_id@, s_old[q].button_code));
                        } else {
                            assert(!button_sample_matches(s_old[p], s_old[q].device_id@, s_old[q].button_code));
                        }
                    }
                }
                return ;
            }
            i += 1;
        }
        self.buttons.push(sample);
        proof {
            let s_old = old(self).buttons@;
            let s_new = self.buttons@;
            assert(button_sample_matches(self.buttons_seq()[n as int], samp.device_id@, samp.button_code));
            assert forall|p: int, q: int| 0 <= p < q < s_new.len() implies !(button_sample_matches(
                s_new[p],
                s_new[q].device_id@,
                s_new[q].button_code,
            )) by {
                if q == n {
                    assert(!button_sample_matches(s_old[p], samp.device_id@, samp.button_code));
                } else {
                    assert(!button_sample_matches(s_old[p], s_old[q].device_id@, s_old[q].button_code));
                }
            }
        }
    }
}

/// Map a raw absolute-axis reading with advertised range `[lo, hi]` onto
/// the unit range: `lo` to `-AXIS_SCALE`, `hi` to `AXIS_SCALE`, linear and
/// truncating in between, clamping readings outside the advertised range.
pub open spec fn raw_to_unit_spec(raw: int, lo: int, hi: int) -> int {
    let c = crate::units::clamp_spec(raw, lo, hi);
    ((c - lo) * 2 * AXIS_SCALE) / (hi - lo) - AXIS_SCALE
}

/// Normalize a raw absolute-axis reading onto the unit range.
///
/// This is the reader-side counterpart of calibration: devices advertise
/// `[lo, hi]` for each absolute axis, and every value this crate consumes
/// is first mapped through this function.
pub fn raw_to_unit(raw: i32, lo: i32, hi: i32) -> (r: i32)
    requires
        lo < hi,
    ensures
        r == raw_to_unit_spec(raw as int, lo as int, hi as int),
        in_axis_range(r as int),
{
    let range = hi as i64 - lo as i64;
    let c = crate::units::clamp_i32(raw, lo, hi);
    let offset = (c as i64 - lo as i64) as u64;
    let range_u = range as u64;
    let two_scale: u64 = 2_000_000;
    proof {
        lemma_mul_inequality(offset as int, range_u as int, two_scale as int);
        lemma_mul_inequality(range_u as int, 0xffff_ffff, two_scale as int);
        lemma_div_is_ordered(offset as int * two_scale, range_u as int * two_scale, range_u as int);
        lemma_div_multiples_vanish(two_scale as int, range_u as int);
        lemma_div_pos_is_pos(offset as int * two_scale, range_u as int);
    }
    let q = (offset * two_scale) / range_u;
    (q as i64 - AXIS_SCALE as i64) as i32
}

} // verus!
