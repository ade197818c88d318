//! The calibration wizard: a strictly linear state machine that turns a raw
//! event stream into the bindings of a [`WheelConfig`].
//!
//! Each axis step tracks, per (device, axis), the first value seen and the
//! latest value; on [`CalibrationWizard::advance`] the axis that moved the
//! most wins, but only if its movement exceeds [`MOVEMENT_THRESHOLD`] —
//! idle or jittery axes commit nothing. After both halves of an axis are
//! captured, a reversed pair of extremes is swapped and the binding marked
//! inverted, so reversed wiring corrects itself.

use vstd::prelude::*;

use crate::config::AxisBinding;
use crate::config::ButtonBinding;
use crate::config::WheelConfig;
use crate::input::InputEvent;
use crate::units::in_axis_range;

verus! {

/// Movement below or at this threshold never commits an axis: it filters
/// devices that merely idle or jitter. A tunable constant on the unit
/// scale, not a behavioral contract.
pub const MOVEMENT_THRESHOLD: i32 = 100_000;

/// The current step of the wizard. Steps run strictly in declaration
/// order; only the two clutch steps may be skipped.
#[derive(Debug, Clone, Copy, PartialEq, Eq, Structural)]
pub enum CalibrationStep {
    /// Welcome screen.
    Welcome,
    /// Steering wheel calibration: turn left.
    SteeringLeft,
    /// Steering wheel calibration: turn right.
    SteeringRight,
    /// Throttle calibration: press fully.
    ThrottlePressed,
    /// Throttle calibration: release.
    ThrottleReleased,
    /// Brake calibration: press fully.
    BrakePressed,
    /// Brake calibration: release.
    BrakeReleased,
    /// Clutch calibration: press fully (optional).
    ClutchPressed,
    /// Clutch calibration: release (optional).
    ClutchReleased,
    /// Shift-up button.
    ShiftUp,
    /// Shift-down button.
    ShiftDown,
    /// Calibration complete; a terminal, re-entrant no-op.
    Complete,
}

impl CalibrationStep {
    /// The successor of each step; `Complete` stays `Complete`.
    pub open spec fn next_spec(self) -> CalibrationStep {
        match self {
            CalibrationStep::Welcome => CalibrationStep::SteeringLeft,
            CalibrationStep::SteeringLeft => CalibrationStep::SteeringRight,
            CalibrationStep::SteeringRight => CalibrationStep::ThrottlePressed,
            CalibrationStep::ThrottlePressed => CalibrationStep::ThrottleReleased,
            CalibrationStep::ThrottleReleased => CalibrationStep::BrakePressed,
            CalibrationStep::BrakePressed => CalibrationStep::BrakeReleased,
            CalibrationStep::BrakeReleased => CalibrationStep::ClutchPressed,
            CalibrationStep::ClutchPressed => CalibrationStep::ClutchReleased,
            CalibrationStep::ClutchReleased => CalibrationStep::ShiftUp,
            CalibrationStep::ShiftUp => CalibrationStep::ShiftDown,
            CalibrationStep::ShiftDown => CalibrationStep::Complete,
            CalibrationStep::Complete => CalibrationStep::Complete,
        }
    }

    /// Where a skip lands: the two clutch steps jump straight to
    /// `ShiftUp`; anywhere else a skip is an ordinary advance.
    pub open spec fn skip_clutch_spec(self) -> CalibrationStep {
        if self == CalibrationStep::ClutchPressed || self == CalibrationStep::ClutchReleased {
            CalibrationStep::ShiftUp
        } else {
            self.next_spec()
        }
    }

    /// Whether the step waits for an axis capture.
    pub open spec fn needs_axis_spec(self) -> bool {
        ||| self == CalibrationStep::SteeringLeft
        ||| self == CalibrationStep::SteeringRight
        ||| self == CalibrationStep::ThrottlePressed
        ||| self == CalibrationStep::ThrottleReleased
        ||| self == CalibrationStep::BrakePressed
        ||| self == CalibrationStep::BrakeReleased
        ||| self == CalibrationStep::ClutchPressed
        ||| self == CalibrationStep::ClutchReleased
    }

    /// Whether the step waits for a button capture.
    pub open spec fn needs_button_spec(self) -> bool {
        self == CalibrationStep::ShiftUp || self == CalibrationStep::ShiftDown
    }

    /// What to tell the user at this step.
    pub fn instructions(&self) -> &'static str {
        match self {
            CalibrationStep::Welcome => "Welcome to RoWheel calibration! Click NEXT to begin.",
            CalibrationStep::SteeringLeft => "Turn the steering wheel all the way to the LEFT, then click NEXT.",
            CalibrationStep::SteeringRight => "Turn the steering wheel all the way to the RIGHT, then click NEXT.",
            CalibrationStep::ThrottlePressed => "Press the THROTTLE pedal all the way down, then click NEXT.",
            CalibrationStep::ThrottleReleased => "Release the THROTTLE pedal completely, then click NEXT.",
            CalibrationStep::BrakePressed => "Press the BRAKE pedal all the way down, then click NEXT.",
            CalibrationStep::BrakeReleased => "Release the BRAKE pedal completely, then click NEXT.",
            CalibrationStep::ClutchPressed => "Press the CLUTCH pedal all the way down, then click NEXT.\n(Or click SKIP if you don't have a clutch)",
            CalibrationStep::ClutchReleased => "Release the CLUTCH pedal completely, then click NEXT.",
            CalibrationStep::ShiftUp => "Press the SHIFT UP button/paddle, then click NEXT.",
            CalibrationStep::ShiftDown => "Press the SHIFT DOWN button/paddle, then click NEXT.",
            CalibrationStep::Complete => "Calibration complete! Your configuration has been saved.",
        }
    }

    /// Whether this step may be skipped: only the two clutch steps.
    pub fn can_skip(&self) -> (r: bool)
        ensures
            r == (self == CalibrationStep::ClutchPressed || self
                == CalibrationStep::ClutchReleased),
    {
        *self == CalibrationStep::ClutchPressed || *self == CalibrationStep::ClutchReleased
    }

    /// The next step in the fixed order.
    pub fn next(&self) -> (r: CalibrationStep)
        ensures
            r == self.next_spec(),
    {
        match self {
            CalibrationStep::Welcome => CalibrationStep::SteeringLeft,
            CalibrationStep::SteeringLeft => CalibrationStep::SteeringRight,
            CalibrationStep::SteeringRight => CalibrationStep::ThrottlePressed,
            CalibrationStep::ThrottlePressed => CalibrationStep::ThrottleReleased,
            CalibrationStep::ThrottleReleased => CalibrationStep::BrakePressed,
            CalibrationStep::BrakePressed => CalibrationStep::BrakeReleased,
            CalibrationStep::BrakeReleased => CalibrationStep::ClutchPressed,
            CalibrationStep::ClutchPressed => CalibrationStep::ClutchReleased,
            CalibrationStep::ClutchReleased => CalibrationStep::ShiftUp,
            CalibrationStep::ShiftUp => CalibrationStep::ShiftDown,
            CalibrationStep::ShiftDown => CalibrationStep::Complete,
            CalibrationStep::Complete => CalibrationStep::Complete,
        }
    }

    /// Where a skip from this step lands.
    pub fn skip_clutch(&self) -> (r: CalibrationStep)
        ensures
            r == self.skip_clutch_spec(),
    {
        if *self == CalibrationStep::ClutchPressed || *self == CalibrationStep::ClutchReleased {
            CalibrationStep::ShiftUp
        } else {
            self.next()
        }
    }
}

/// Movement record for one (device, axis) pair during an axis step:
/// the first value seen is the baseline, the latest value the candidate.
#[derive(Debug, Clone)]
pub struct AxisTracker {
    /// Identifier of the device the axis lives on.
    pub device_id: String,
    /// Human-readable device name, for display only.
    pub device_name: String,
    /// The axis code on that device.
    pub axis_code: u32,
    /// First value seen after the step began.
    pub initial_value: i32,
    /// Latest value seen.
    pub current_value: i32,
}

impl AxisTracker {
    /// Tracked values stay on the unit range.
    pub open spec fn wf(self) -> bool {
        in_axis_range(self.initial_value as int) && in_axis_range(self.current_value as int)
    }

    /// How far the axis has moved from its baseline.
    pub open spec fn movement_spec(self) -> int {
        if self.current_value >= self.initial_value {
            self.current_value - self.initial_value
        } else {
            self.initial_value - self.current_value
        }
    }

    /// How far the axis has moved from its baseline.
    pub fn movement(&self) -> (m: i32)
        requires
            self.wf(),
        ensures
            m == self.movement_spec(),
    {
        if self.current_value >= self.initial_value {
            self.current_value - self.initial_value
        } else {
            self.initial_value - self.current_value
        }
    }
}

/// Whether `t` tracks axis `code` of device `dev`.
pub open spec fn tracker_matches(t: AxisTracker, dev: Seq<char>, code: u32) -> bool {
    t.device_id@ == dev && t.axis_code == code
}

/// At most one tracker per (device, axis) pair.
pub open spec fn trackers_unique(s: Seq<AxisTracker>) -> bool {
    forall|i: int, j: int|
        0 <= i < j < s.len() ==> !(#[trigger] tracker_matches(
            s[i],
            s[j].device_id@,
            s[j].axis_code,
        ))
}

/// Whether some tracker in `s` tracks axis `code` of device `dev`.
pub open spec fn has_tracker(s: Seq<AxisTracker>, dev: Seq<char>, code: u32) -> bool {
    exists|i: int| 0 <= i < s.len() && tracker_matches(#[trigger] s[i], dev, code)
}

/// Whether some tracker in `s` moved beyond the commit threshold.
pub open spec fn some_tracker_moved(s: Seq<AxisTracker>) -> bool {
    exists|i: int| 0 <= i < s.len() && (#[trigger] s[i]).movement_spec() > MOVEMENT_THRESHOLD
}

/// The axis position an axis step captured: which axis, and the value it
/// sat at when the step advanced.
#[derive(Debug, Clone)]
pub struct CapturedAxis {
    /// Identifier of the device the axis lives on.
    pub device_id: String,
    /// Human-readable device name, for display only.
    pub device_name: String,
    /// The axis code on that device.
    pub axis_code: u32,
    /// The axis value at capture time.
    pub value: i32,
}

/// Whether `c` is a capture of tracker `t`'s current position.
pub open spec fn captures_tracker(c: CapturedAxis, t: AxisTracker) -> bool {
    &&& c.device_id@ == t.device_id@
    &&& c.device_name@ == t.device_name@
    &&& c.axis_code == t.axis_code
    &&& c.value == t.current_value
}

/// What a capture pass leaves in the captured-axis slot, given the
/// trackers and the slot's previous contents: the current position of a
/// maximally-moved tracker past the threshold, or — when nothing moved far
/// enough — the slot untouched. Which of several equally-moved trackers
/// wins is left open.
pub open spec fn capture_outcome(
    trackers: Seq<AxisTracker>,
    prev: Option<CapturedAxis>,
    cap: Option<CapturedAxis>,
) -> bool {
    if some_tracker_moved(trackers) {
        exists|i: int|
            {
                &&& 0 <= i < trackers.len()
                &&& (#[trigger] trackers[i]).movement_spec() > MOVEMENT_THRESHOLD
                &&& forall|k: int|
                    0 <= k < trackers.len() ==> (#[trigger] trackers[k]).movement_spec()
                        <= trackers[i].movement_spec()
                &&& cap matches Some(c) && captures_tracker(c, trackers[i])
            }
    } else {
        cap == prev
    }
}

/// The calibration state machine.
pub struct CalibrationWizard {
    /// The step the wizard currently sits at.
    pub step: CalibrationStep,
    /// The profile assembled so far.
    pub config: WheelConfig,
    /// Movement records of the step under way, one per (device, axis).
    pub axis_trackers: Vec<AxisTracker>,
    /// The axis capture pending commit, if any.
    pub captured_axis: Option<CapturedAxis>,
    /// The button capture pending commit, if any.
    pub captured_button: Option<ButtonBinding>,
}

impl CalibrationWizard {
    /// The per-step movement records.
    pub open spec fn trackers(self) -> Seq<AxisTracker> {
        self.axis_trackers@
    }

    /// The axis capture pending commit, if any.
    pub open spec fn captured_axis_spec(self) -> Option<CapturedAxis> {
        self.captured_axis
    }

    /// The button capture pending commit, if any.
    pub open spec fn captured_button_spec(self) -> Option<ButtonBinding> {
        self.captured_button
    }

    /// Trackers are unique per (device, axis) and on the unit range, and
    /// the profile's bindings keep their extremes ordered.
    pub open spec fn wf(self) -> bool {
        &&& trackers_unique(self.axis_trackers@)
        &&& forall|i: int| 0 <= i < self.axis_trackers@.len() ==> (#[trigger] self.axis_trackers@[i]).wf()
        &&& self.config.wf()
    }

    /// Start the wizard at the welcome step, keeping an existing profile
    /// (a recalibration starts from it) or an empty one.
    pub fn new(existing_config: Option<WheelConfig>) -> (r: Self)
        requires
            existing_config matches Some(c) ==> c.wf(),
        ensures
            r.wf(),
            r.step == CalibrationStep::Welcome,
            existing_config matches Some(c) ==> r.config == c,
            existing_config is None ==> !r.config.partially_configured_spec(),
            r.trackers() =~= Seq::<AxisTracker>::empty(),
            r.captured_axis_spec() is None,
            r.captured_button_spec() is None,
    {
        let config = match existing_config {
            Some(c) => c,
            None => Default::default(),
        };
        CalibrationWizard {
            step: CalibrationStep::Welcome,
            config,
            axis_trackers: Vec::new(),
            captured_axis: None,
            captured_button: None,
        }
    }

    /// Feed one input event into the current step's tracking state.
    ///
    /// An axis event updates the latest value of its (device, axis)
    /// tracker, or starts one with the event's value as baseline; a
    /// button press replaces the pending button capture; everything else
    /// changes nothing. The profile and the step never change here.
    #[verifier::loop_isolation(false)]
    pub fn process_event(&mut self, event: &InputEvent)
        requires
            old(self).wf(),
            event.wf(),
        ensures
            final(self).wf(),
            final(self).step == old(self).step,
            final(self).config == old(self).config,
            match *event {
                InputEvent::AxisMoved { ref device_id, ref device_name, axis_code, value } => {
                    &&& final(self).captured_axis_spec() == old(self).captured_axis_spec()
                    &&& final(self).captured_button_spec() == old(self).captured_button_spec()
                    &&& if has_tracker(old(self).trackers(), device_id@, axis_code) {
                        &&& final(self).trackers().len() == old(self).trackers().len()
                        &&& forall|j: int|
                            0 <= j < old(self).trackers().len() ==> if tracker_matches(
                                #[trigger] old(self).trackers()[j],
                                device_id@,
                                axis_code,
                            ) {
                                &&& final(self).trackers()[j].device_id@ == old(
                                    self,
                                ).trackers()[j].device_id@
                                &&& final(self).trackers()[j].device_name@ == old(
                                    self,
                                ).trackers()[j].device_name@
                                &&& final(self).trackers()[j].axis_code == old(
                                    self,
                                ).trackers()[j].axis_code
                                &&& final(self).trackers()[j].initial_value == old(
                                    self,
                                ).trackers()[j].initial_value
                                &&& final(self).trackers()[j].current_value == value
                            } else {
                                final(self).trackers()[j] == old(self).trackers()[j]
                            }
                    } else {
                        &&& final(self).trackers().len() == old(self).trackers().len() + 1
                        &&& forall|j: int|
                            0 <= j < old(self).trackers().len() ==> final(self).trackers()[j]
                                == old(self).trackers()[j]
                        &&& {
                            let t = final(self).trackers().last();
                            &&& t.device_id@ == device_id@
                            &&& t.device_name@ == device_name@
                            &&& t.axis_code == axis_code
                            &&& t.initial_value == value
                            &&& t.current_value == value
                        }
                    }
                },
                InputEvent::ButtonPressed { ref device_id, ref device_name, button_code } => {
                    &&& final(self).trackers() == old(self).trackers()
                    &&& final(self).captured_axis_spec() == old(self).captured_axis_spec()
                    &&& final(self).captured_button_spec() matches Some(b) && b.device_id@
                        == device_id@ && b.device_name@ == device_name@ && b.button_code
                        == button_code
                },
                _ => {
                    &&& final(self).trackers() == old(self).trackers()
                    &&& final(self).captured_axis_spec() == old(self).captured_axis_spec()
                    &&& final(self).captured_button_spec() == old(self).captured_button_spec()
                },
            },
    {
        match event {
            InputEvent::AxisMoved { device_id, device_name, axis_code, value } => {
                let n = self.axis_trackers.len();
                let mut i: usize = 0;
                while i < n
                    invariant
                        self == old(self),
                        n == self.axis_trackers.len(),
                        i <= n,
                        forall|j: int|
                            0 <= j < i ==> !tracker_matches(
                                #[trigger] self.axis_trackers@[j],
                                device_id@,
                                *axis_code,
                            ),
                    decreases n - i,
                {
                    let matched = self.axis_trackers[i].axis_code == *axis_code
                        && self.axis_trackers[i].device_id == *device_id;
                    if matched {
                        proof {
                            assert(tracker_matches(
                                old(self).trackers()[i as int],
                                device_id@,
                                *axis_code,
                            ));
                        }
                        let t = &mut self.axis_trackers[i];
                        t.current_value = *value;
                        proof {
                            let s_old = old(self).axis_trackers@;
                            let s_new = self.axis_trackers@;
                            assert forall|p: int, q: int| 0 <= p < q < s_new.len() implies !(
                            tracker_matches(s_new[p], s_new[q].device_id@, s_new[q].axis_code)) by {
                                if q == i {
                                    assert(!tracker_matches(
                                        s_old[p],
                                        s_old[i as int].device_id@,
                                        s_old[i as int].axis_code,
                                    ));
                                } else if p == i {
                                    assert(!tracker_matches(
                                        s_old[i as int],
                                        s_old[q].device_id@,
                                        s_old[q].axis_code,
                                    ));
                                } else {
                                    assert(!tracker_matches(
                                        s_old[p],
                                        s_old[q].device_id@,
                                        s_old[q].axis_code,
                                    ));
                                }
                            }
                        }
                        return ;
                    }
                    i += 1;
                }
                let tracker = AxisTracker {
                    device_id: device_id.clone(),
                    device_name: device_name.clone(),
                    axis_code: *axis_code,
                    initial_value: *value,
                    current_value: *value,
                };
                self.axis_trackers.push(tracker);
                proof {
                    let s_old = old(self).axis_trackers@;
                    let s_new = self.axis_trackers@;
                    assert forall|p: int, q: int| 0 <= p < q < s_new.len() implies !(
                    tracker_matches(s_new[p], s_new[q].device_id@, s_new[q].axis_code)) by {
                        if q == n {
                            assert(!tracker_matches(s_old[p], device_id@, *axis_code));
                        } else {
                            assert(!tracker_matches(s_old[p], s_old[q].device_id@, s_old[q].axis_code));
                        }
                    }
                }
            },
            InputEvent::ButtonPressed { device_id, device_name, button_code } => {
                self.captured_button = Some(
                    ButtonBinding {
                        device_id: device_id.clone(),
                        device_name: device_name.clone(),
                        button_code: *button_code,
                    },
                );
            },
            _ => {},
        }
    }

    /// Index of the tracker that moved the most, provided it moved beyond
    /// the threshold; `None` when every tracker stayed at or below it.
    #[verifier::loop_isolation(false)]
    fn best_tracker_index(&self) -> (r: Option<usize>)
        requires
            self.wf(),
        ensures
            match r {
                Some(i) => {
                    &&& i < self.trackers().len()
                    &&& self.trackers()[i as int].movement_spec() > MOVEMENT_THRESHOLD
                    &&& forall|k: int|
                        0 <= k < self.trackers().len() ==> (
                        #[trigger] self.trackers()[k]).movement_spec()
                            <= self.trackers()[i as int].movement_spec()
                },
                None => !some_tracker_moved(self.trackers()),
            },
    {
        let n = self.axis_trackers.len();
        if n == 0 {
            return None;
        }
        let mut best_i: usize = 0;
        let mut best_m: i32 = self.axis_trackers[0].movement();
        let mut i: usize = 1;
        while i < n
            invariant
                1 <= i <= n,
                best_i < i,
                best_m == self.trackers()[best_i as int].movement_spec(),
                forall|k: int|
                    0 <= k < i ==> (#[trigger] self.trackers()[k]).movement_spec() <= best_m,
            decreases n - i,
        {
            let m = self.axis_trackers[i].movement();
            if m >= best_m {
                best_m = m;
                best_i = i;
            }
            i += 1;
        }
        if best_m > MOVEMENT_THRESHOLD {
            Some(best_i)
        } else {
            None
        }
    }

    /// Capture the current position of the most-moved axis for the step
    /// under way. When no tracked axis moved beyond the threshold, the
    /// pending capture is left exactly as it was.
    pub fn capture_axis_position(&mut self)
        requires
            old(self).wf(),
        ensures
            final(self).wf(),
            final(self).step == old(self).step,
            final(self).config == old(self).config,
            final(self).trackers() == old(self).trackers(),
            final(self).captured_button_spec() == old(self).captured_button_spec(),
            capture_outcome(
                old(self).trackers(),
                old(self).captured_axis_spec(),
                final(self).captured_axis_spec(),
            ),
    {
        if let Some(i) = self.best_tracker_index() {
            let cap = CapturedAxis {
                device_id: self.axis_trackers[i].device_id.clone(),
                device_name: self.axis_trackers[i].device_name.clone(),
                axis_code: self.axis_trackers[i].axis_code,
                value: self.axis_trackers[i].current_value,
            };
            proof {
                assert(captures_tracker(cap, self.trackers()[i as int]));
                assert(some_tracker_moved(self.trackers()));
            }
            self.captured_axis = Some(cap);
        }
    }

    /// Advance to the next step, committing what the step captured.
    ///
    /// An axis step first captures the most-moved axis (nothing, when no
    /// axis moved beyond the threshold — see the last clause) and commits
    /// it per [`advance_commit_spec`]: a "first half" stores the captured
    /// value as both extremes; a "second half" completes the pair, swapping
    /// the extremes and marking the binding inverted when they arrive
    /// reversed. Button steps commit the most recent press. All per-step
    /// tracking state is cleared before the transition.
    pub fn advance(&mut self)
        requires
            old(self).wf(),
        ensures
            final(self).wf(),
            final(self).step == old(self).step.next_spec(),
            final(self).trackers().len() == 0,
            final(self).captured_axis_spec() is None,
            final(self).captured_button_spec() is None,
            exists|cap: Option<CapturedAxis>|
                {
                    &&& #[trigger] capture_outcome(
                        old(self).trackers(),
                        old(self).captured_axis_spec(),
                        cap,
                    )
                    &&& final(self).config == advance_commit_spec(
                        old(self).config,
                        old(self).step,
                        cap,
                        old(self).captured_button_spec(),
                    )
                },
            old(self).step.needs_axis_spec() && old(self).captured_axis_spec() is None
                && !some_tracker_moved(old(self).trackers()) ==> final(self).config == old(
                self,
            ).config,
    {
        self.capture_axis_position();
        let ghost cap_mid = self.captured_axis_spec();
        match self.step {
            CalibrationStep::SteeringLeft => {
                if let Some(c) = self.captured_axis.take() {
                    self.config.steering = Some(first_half_binding_exec(c));
                }
            },
            CalibrationStep::SteeringRight => {
                if let Some(c) = self.captured_axis.take() {
                    if let Some(steering) = &mut self.config.steering {
                        let mn = steering.min_value;
                        if mn > c.value {
                            steering.min_value = c.value;
                            steering.max_value = mn;
                            steering.inverted = true;
                        } else {
                            steering.max_value = c.value;
                        }
                    }
                }
            },
            CalibrationStep::ThrottlePressed => {
                if let Some(c) = self.captured_axis.take() {
                    self.config.throttle = Some(first_half_binding_exec(c));
                }
            },
            CalibrationStep::ThrottleReleased => {
                if let Some(c) = self.captured_axis.take() {
                    if let Some(throttle) = &mut self.config.throttle {
                        let pressed = throttle.max_value;
                        if c.value > pressed {
                            throttle.min_value = pressed;
                            throttle.max_value = c.value;
                            throttle.inverted = true;
                        } else {
                            throttle.min_value = c.value;
                        }
                    }
                }
            },
            CalibrationStep::BrakePressed => {
                if let Some(c) = self.captured_axis.take() {
                    self.config.brake = Some(first_half_binding_exec(c));
                }
            },
            CalibrationStep::BrakeReleased => {
                if let Some(c) = self.captured_axis.take() {
                    if let Some(brake) = &mut self.config.brake {
                        let pressed = brake.max_value;
                        if c.value > pressed {
                            brake.min_value = pressed;
                            brake.max_value = c.value;
                            brake.inverted = true;
                        } else {
                            brake.min_value = c.value;
                        }
                    }
                }
            },
            CalibrationStep::ClutchPressed => {
                if let Some(c) = self.captured_axis.take() {
                    self.config.clutch = Some(first_half_binding_exec(c));
                }
            },
            CalibrationStep::ClutchReleased => {
                if let Some(c) = self.captured_axis.take() {
                    if let Some(clutch) = &mut self.config.clutch {
                        let pressed = clutch.max_value;
                        if c.value > pressed {
                            clutch.min_value = pressed;
                            clutch.max_value = c.value;
                            clutch.inverted = true;
                        } else {
                            clutch.min_value = c.value;
                        }
                    }
                }
            },
            CalibrationStep::ShiftUp => {
                if let Some(b) = self.captured_button.take() {
                    self.config.shift_up = Some(b);
                }
            },
            CalibrationStep::ShiftDown => {
                if let Some(b) = self.captured_button.take() {
                    self.config.shift_down = Some(b);
                }
            },
            _ => {},
        }
        self.axis_trackers.clear();
        self.captured_axis = None;
        self.captured_button = None;
        self.step = self.step.next();
        proof {
            assert(capture_outcome(old(self).trackers(), old(self).captured_axis_spec(), cap_mid));
            assert(self.config == advance_commit_spec(
                old(self).config,
                old(self).step,
                cap_mid,
                old(self).captured_button_spec(),
            ));
        }
    }

    /// Skip the current step. Valid only as a user action on the two
    /// clutch steps, where it jumps straight to `ShiftUp` without touching
    /// any binding — the clutch stays exactly as it was. (From any other
    /// step it behaves as a plain transition and still commits nothing.)
    pub fn skip(&mut self)
        requires
            old(self).wf(),
        ensures
            final(self).wf(),
            final(self).step == old(self).step.skip_clutch_spec(),
            final(self).config == old(self).config,
            final(self).trackers().len() == 0,
            final(self).captured_axis_spec() is None,
            final(self).captured_button_spec() is None,
    {
        self.axis_trackers.clear();
        self.captured_axis = None;
        self.captured_button = None;
        self.step = self.step.skip_clutch();
    }

    /// The most-moved axis right now, for live display: device name, axis
    /// code and movement so far. `None` while nothing moved beyond the
    /// threshold.
    pub fn get_detected_axis_info(&self) -> (r: Option<(String, u32, i32)>)
        requires
            self.wf(),
        ensures
            r is Some <==> some_tracker_moved(self.trackers()),
            r matches Some(d) ==> exists|i: int|
                {
                    &&& 0 <= i < self.trackers().len()
                    &&& (#[trigger] self.trackers()[i]).movement_spec() > MOVEMENT_THRESHOLD
                    &&& forall|k: int|
                        0 <= k < self.trackers().len() ==> (
                        #[trigger] self.trackers()[k]).movement_spec()
                            <= self.trackers()[i].movement_spec()
                    &&& d.0@ == self.trackers()[i].device_name@
                    &&& d.1 == self.trackers()[i].axis_code
                    &&& d.2 == self.trackers()[i].movement_spec()
                },
    {
        if let Some(i) = self.best_tracker_index() {
            let m = self.axis_trackers[i].movement();
            Some((self.axis_trackers[i].device_name.clone(), self.axis_trackers[i].axis_code, m))
        } else {
            None
        }
    }

    /// The most recent button press, for live display: device name and
    /// button code.
    pub fn get_detected_button_info(&self) -> (r: Option<(String, u32)>)
        ensures
            r is Some <==> self.captured_button_spec() is Some,
            r matches Some(d) ==> self.captured_button_spec() matches Some(b) && d.0@
                == b.device_name@ && d.1 == b.button_code,
    {
        match &self.captured_button {
            Some(b) => Some((b.device_name.clone(), b.button_code)),
            None => None,
        }
    }

    /// Whether the current step waits for an axis capture.
    pub fn needs_axis_detection(&self) -> (r: bool)
        ensures
            r == self.step.needs_axis_spec(),
    {
        match self.step {
            CalibrationStep::SteeringLeft
            | CalibrationStep::SteeringRight
            | CalibrationStep::ThrottlePressed
            | CalibrationStep::ThrottleReleased
            | CalibrationStep::BrakePressed
            | CalibrationStep::BrakeReleased
            | CalibrationStep::ClutchPressed
            | CalibrationStep::ClutchReleased => true,
            _ => false,
        }
    }

    /// Whether the current step waits for a button capture.
    pub fn needs_button_detection(&self) -> (r: bool)
        ensures
            r == self.step.needs_button_spec(),
    {
        match self.step {
            CalibrationStep::ShiftUp | CalibrationStep::ShiftDown => true,
            _ => false,
        }
    }
}

/// The binding a "first half" axis step commits: the captured value
/// stands as both extremes until the second half completes the pair.
pub open spec fn first_half_binding(c: CapturedAxis) -> AxisBinding {
    AxisBinding {
        device_id: c.device_id,
        device_name: c.device_name,
        axis_code: c.axis_code,
        min_value: c.value,
        max_value: c.value,
        inverted: false,
    }
}

/// The binding a "second half" axis step leaves behind: the earlier
/// extreme sits in `min_value`, the new capture becomes `max_value`; if
/// that puts them in reverse order they are swapped and the binding is
/// marked inverted. For steering the earlier extreme is the left capture;
/// for the pedals it is the pressed capture (stored in `max_value` by the
/// first half), so `prior` names the field the completion compares with.
pub open spec fn second_half_steering(b: AxisBinding, v: i32) -> AxisBinding {
    if b.min_value > v {
        AxisBinding {
            device_id: b.device_id,
            device_name: b.device_name,
            axis_code: b.axis_code,
            min_value: v,
            max_value: b.min_value,
            inverted: true,
        }
    } else {
        AxisBinding {
            device_id: b.device_id,
            device_name: b.device_name,
            axis_code: b.axis_code,
            min_value: b.min_value,
            max_value: v,
            inverted: b.inverted,
        }
    }
}

/// The binding a pedal's release step leaves behind: the release value
/// becomes `min_value` and the pressed value (provisionally stored in
/// `max_value`) stays `max_value`, swapped and marked inverted when the
/// release value is the larger one.
pub open spec fn second_half_release(b: AxisBinding, v: i32) -> AxisBinding {
    if v > b.max_value {
        AxisBinding {
            device_id: b.device_id,
            device_name: b.device_name,
            axis_code: b.axis_code,
            min_value: b.max_value,
            max_value: v,
            inverted: true,
        }
    } else {
        AxisBinding {
            device_id: b.device_id,
            device_name: b.device_name,
            axis_code: b.axis_code,
            min_value: v,
            max_value: b.max_value,
            inverted: b.inverted,
        }
    }
}

/// What [`CalibrationWizard::advance`] commits into the profile, given the
/// step it advanced from, the axis capture the step ended with, and the
/// pending button capture. A step whose capture (or whose first half) is
/// missing commits nothing.
pub open spec fn advance_commit_spec(
    config: WheelConfig,
    step: CalibrationStep,
    cap: Option<CapturedAxis>,
    btn: Option<ButtonBinding>,
) -> WheelConfig {
    match step {
        CalibrationStep::SteeringLeft => match cap {
            Some(c) => WheelConfig { steering: Some(first_half_binding(c)), ..config },
            None => config,
        },
        CalibrationStep::SteeringRight => if cap is Some && config.steering is Some {
            WheelConfig {
                steering: Some(second_half_steering(config.steering->0, cap->0.value)),
                ..config
            }
        } else {
            config
        },
        CalibrationStep::ThrottlePressed => match cap {
            Some(c) => WheelConfig { throttle: Some(first_half_binding(c)), ..config },
            None => config,
        },
        CalibrationStep::ThrottleReleased => if cap is Some && config.throttle is Some {
            WheelConfig {
                throttle: Some(second_half_release(config.throttle->0, cap->0.value)),
                ..config
            }
        } else {
            config
        },
        CalibrationStep::BrakePressed => match cap {
            Some(c) => WheelConfig { brake: Some(first_half_binding(c)), ..config },
            None => config,
        },
        CalibrationStep::BrakeReleased => if cap is Some && config.brake is Some {
            WheelConfig {
                brake: Some(second_half_release(config.brake->0, cap->0.value)),
                ..config
            }
        } else {
            config
        },
        CalibrationStep::ClutchPressed => match cap {
            Some(c) => WheelConfig { clutch: Some(first_half_binding(c)), ..config },
            None => config,
        },
        CalibrationStep::ClutchReleased => if cap is Some && config.clutch is Some {
            WheelConfig {
                clutch: Some(second_half_release(config.clutch->0, cap->0.value)),
                ..config
            }
        } else {
            config
        },
        CalibrationStep::ShiftUp => match btn {
            Some(b) => WheelConfig { shift_up: Some(b), ..config },
            None => config,
        },
        CalibrationStep::ShiftDown => match btn {
            Some(b) => WheelConfig { shift_down: Some(b), ..config },
            None => config,
        },
        _ => config,
    }
}

/// The binding a "first half" axis step commits.
fn first_half_binding_exec(c: CapturedAxis) -> (r: AxisBinding)
    ensures
        r == first_half_binding(c),
{
    AxisBinding {
        device_id: c.device_id,
        device_name: c.device_name,
        axis_code: c.axis_code,
        min_value: c.value,
        max_value: c.value,
        inverted: false,
    }
}

} // verus!
