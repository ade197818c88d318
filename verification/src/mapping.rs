//! The per-frame mapping: raw values from the input snapshot, through the
//! calibration bindings, onto one virtual-gamepad state — steering to the
//! left stick, clutch to the left stick's other axis, throttle and brake
//! to the triggers, the shift buttons to Y and X. Controls without a
//! binding, and bindings whose axis the snapshot has never seen, stay
//! neutral.

use vstd::prelude::*;

use crate::config::AxisBinding;
use crate::config::ButtonBinding;
use crate::config::WheelConfig;
use crate::input::AxisSample;
use crate::input::ButtonSample;
use crate::input::InputState;
use crate::input::axis_lookup;
use crate::input::button_lookup;
use crate::virtual_controller::XboxControllerState;

verus! {

/// Whether the application is calibrating or translating input frames.
#[derive(Debug, Clone, Copy, PartialEq, Eq, Structural)]
pub enum AppMode {
    /// The calibration wizard is running.
    Calibrating,
    /// Frames flow from the rig to the virtual gamepad.
    Running,
}

/// Where to start: straight into `Running` with a complete profile,
/// otherwise into calibration.
pub fn select_mode(config: &Option<WheelConfig>) -> (m: AppMode)
    ensures
        m == (if config matches Some(c) && c.complete_spec() {
            AppMode::Running
        } else {
            AppMode::Calibrating
        }),
{
    match config {
        Some(c) => if c.is_complete() {
            AppMode::Running
        } else {
            AppMode::Calibrating
        },
        None => AppMode::Calibrating,
    }
}

/// What a stick-style control emits: the bound axis's snapshot value
/// through the binding's stick mapping; neutral without a binding or a
/// value.
pub open spec fn axis_out_spec(binding: Option<AxisBinding>, axes: Seq<AxisSample>) -> int {
    match binding {
        Some(b) => match axis_lookup(axes, b.device_id@, b.axis_code) {
            Some(v) => b.normalize_spec(v as int),
            None => 0,
        },
        None => 0,
    }
}

/// What a pedal-style control emits: the bound axis's snapshot value
/// through the binding's trigger mapping; neutral without a binding or a
/// value.
pub open spec fn trigger_out_spec(binding: Option<AxisBinding>, axes: Seq<AxisSample>) -> int {
    match binding {
        Some(b) => match axis_lookup(axes, b.device_id@, b.axis_code) {
            Some(v) => b.normalize_trigger_spec(v as int),
            None => 0,
        },
        None => 0,
    }
}

/// What a shift control emits: the bound button's snapshot state;
/// released without a binding or a state.
pub open spec fn button_out_spec(binding: Option<ButtonBinding>, buttons: Seq<ButtonSample>) -> bool {
    match binding {
        Some(b) => match button_lookup(buttons, b.device_id@, b.button_code) {
            Some(pressed) => pressed,
            None => false,
        },
        None => false,
    }
}

/// Build one frame of virtual-gamepad state from the profile and the
/// input snapshot. Every output field is pinned: the four bound controls
/// come through their bindings, and everything else stays neutral.
pub fn map_frame(config: &WheelConfig, state: &InputState) -> (r: XboxControllerState)
    ensures
        r.left_stick_x == axis_out_spec(config.steering, state.axes_seq()),
        r.left_stick_y == axis_out_spec(config.clutch, state.axes_seq()),
        r.right_trigger == trigger_out_spec(config.throttle, state.axes_seq()),
        r.left_trigger == trigger_out_spec(config.brake, state.axes_seq()),
        r.buttons.y == button_out_spec(config.shift_up, state.buttons_seq()),
        r.buttons.x == button_out_spec(config.shift_down, state.buttons_seq()),
        r.right_stick_x == 0 && r.right_stick_y == 0,
        !r.buttons.a && !r.buttons.b && !r.buttons.left_bumper && !r.buttons.right_bumper
            && !r.buttons.back && !r.buttons.start && !r.buttons.guide && !r.buttons.left_thumb
            && !r.buttons.right_thumb && !r.buttons.dpad_up && !r.buttons.dpad_down
            && !r.buttons.dpad_left && !r.buttons.dpad_right,
        r.wf(),
{
    let mut out: XboxControllerState = Default::default();
    if let Some(b) = &config.steering {
        if let Some(v) = state.get_axis(&b.device_id, b.axis_code) {
            out.left_stick_x = b.normalize(v);
        }
    }
    if let Some(b) = &config.clutch {
        if let Some(v) = state.get_axis(&b.device_id, b.axis_code) {
            out.left_stick_y = b.normalize(v);
        }
    }
    if let Some(b) = &config.throttle {
        if let Some(v) = state.get_axis(&b.device_id, b.axis_code) {
            out.right_trigger = b.normalize_trigger(v);
        }
    }
    if let Some(b) = &config.brake {
        if let Some(v) = state.get_axis(&b.device_id, b.axis_code) {
            out.left_trigger = b.normalize_trigger(v);
        }
    }
    if let Some(b) = &config.shift_up {
        if let Some(pressed) = state.get_button(&b.device_id, b.button_code) {
            out.buttons.y = pressed;
        }
    }
    if let Some(b) = &config.shift_down {
        if let Some(pressed) = state.get_button(&b.device_id, b.button_code) {
            out.buttons.x = pressed;
        }
    }
    out
}

} // verus!
