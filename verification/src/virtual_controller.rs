//! The virtual gamepad's data model: the per-frame state snapshot pushed
//! into the OS-level virtual device, the rumble commands recovered from it,
//! and the wire record one platform's virtual bus consumes.
//!
//! All normalized values use the fixed-point unit scale of
//! [`crate::units`]; the encoders here rescale them onto each protocol's
//! native integer ranges.

use vstd::prelude::*;

use crate::units::AXIS_SCALE;
use crate::units::in_axis_range;
use crate::units::in_trigger_range;
use crate::units::scale_fraction;
use crate::units::scale_fraction_spec;
use crate::units::scale_signed;
use crate::units::scale_signed_spec;

verus! {

/// Full deflection of a stick axis on the wire: the positive extreme of a
/// 16-bit thumb-stick value.
pub const THUMB_FULL: u32 = 32767;

/// Full deflection of a trigger on the wire: the top of its 8-bit range.
pub const TRIGGER_FULL: u32 = 255;

/// Digital button states of the virtual gamepad.
#[derive(Debug, Clone, Copy, PartialEq, Eq, Structural)]
pub struct XboxButtons {
    pub a: bool,
    pub b: bool,
    pub x: bool,
    pub y: bool,
    pub left_bumper: bool,
    pub right_bumper: bool,
    pub back: bool,
    pub start: bool,
    pub guide: bool,
    pub left_thumb: bool,
    pub right_thumb: bool,
    pub dpad_up: bool,
    pub dpad_down: bool,
    pub dpad_left: bool,
    pub dpad_right: bool,
}

impl Default for XboxButtons {
    /// Every button released.
    fn default() -> (r: Self)
        ensures
            r == XboxButtons::released(),
    {
        XboxButtons {
            a: false,
            b: false,
            x: false,
            y: false,
            left_bumper: false,
            right_bumper: false,
            back: false,
            start: false,
            guide: false,
            left_thumb: false,
            right_thumb: false,
            dpad_up: false,
            dpad_down: false,
            dpad_left: false,
            dpad_right: false,
        }
    }
}

impl XboxButtons {
    /// The all-released button state.
    pub open spec fn released() -> XboxButtons {
        XboxButtons {
            a: false,
            b: false,
            x: false,
            y: false,
            left_bumper: false,
            right_bumper: false,
            back: false,
            start: false,
            guide: false,
            left_thumb: false,
            right_thumb: false,
            dpad_up: false,
            dpad_down: false,
            dpad_left: false,
            dpad_right: false,
        }
    }
}

/// One frame of virtual-gamepad state on the normalized control surface:
/// stick axes on `[-AXIS_SCALE, AXIS_SCALE]`, triggers on
/// `[0, AXIS_SCALE]`.
#[derive(Debug, Clone, Copy, PartialEq, Eq, Structural)]
pub struct XboxControllerState {
    /// Left stick X (steering).
    pub left_stick_x: i32,
    /// Left stick Y (clutch).
    pub left_stick_y: i32,
    /// Right stick X; unused by the wheel mapping.
    pub right_stick_x: i32,
    /// Right stick Y; unused by the wheel mapping.
    pub right_stick_y: i32,
    /// Left trigger (brake).
    pub left_trigger: i32,
    /// Right trigger (throttle).
    pub right_trigger: i32,
    /// Digital buttons.
    pub buttons: XboxButtons,
}

impl XboxControllerState {
    /// Every axis on its normalized range.
    pub open spec fn wf(self) -> bool {
        &&& in_axis_range(self.left_stick_x as int)
        &&& in_axis_range(self.left_stick_y as int)
        &&& in_axis_range(self.right_stick_x as int)
        &&& in_axis_range(self.right_stick_y as int)
        &&& in_trigger_range(self.left_trigger as int)
        &&& in_trigger_range(self.right_trigger as int)
    }

    /// The neutral frame: everything centered, released.
    pub open spec fn neutral() -> XboxControllerState {
        XboxControllerState {
            left_stick_x: 0,
            left_stick_y: 0,
            right_stick_x: 0,
            right_stick_y: 0,
            left_trigger: 0,
            right_trigger: 0,
            buttons: XboxButtons::released(),
        }
    }
}

impl Default for XboxControllerState {
    /// The neutral frame.
    fn default() -> (r: Self)
        ensures
            r == XboxControllerState::neutral(),
            r.wf(),
    {
        XboxControllerState {
            left_stick_x: 0,
            left_stick_y: 0,
            right_stick_x: 0,
            right_stick_y: 0,
            left_trigger: 0,
            right_trigger: 0,
            buttons: Default::default(),
        }
    }
}

/// A rumble command recovered from the virtual device: two motor
/// intensities on `[0, AXIS_SCALE]`.
#[derive(Debug, Clone, Copy, PartialEq, Eq, Structural)]
pub struct RumbleState {
    /// Large (low-frequency) motor intensity.
    pub large_motor: i32,
    /// Small (high-frequency) motor intensity.
    pub small_motor: i32,
}

impl RumbleState {
    /// Both intensities on the unit range.
    pub open spec fn wf(self) -> bool {
        in_trigger_range(self.large_motor as int) && in_trigger_range(self.small_motor as int)
    }

    /// The silent command: both motors off.
    pub open spec fn zero() -> RumbleState {
        RumbleState { large_motor: 0, small_motor: 0 }
    }
}

impl Default for RumbleState {
    /// Both motors off.
    fn default() -> (r: Self)
        ensures
            r == RumbleState::zero(),
            r.wf(),
    {
        RumbleState { large_motor: 0, small_motor: 0 }
    }
}

/// Why creating the virtual gamepad failed. The taxonomy is part of the
/// contract: each kind is reported distinctly, and all of them are fatal
/// to this subsystem only — the caller continues in degraded mode.
#[derive(Debug, Clone, Copy, PartialEq, Eq, Structural)]
pub enum ConnectError {
    /// The OS gamepad-emulation subsystem is not present.
    SubsystemUnavailable,
    /// The subsystem exists but this process may not use it.
    PermissionDenied,
    /// A required third-party virtual-bus driver is not installed.
    DriverMissing,
    /// Some other failure while creating the device.
    Other,
}

/// What a failed open of the emulation subsystem's device node means.
pub open spec fn connect_error_spec(errno: i32) -> ConnectError {
    if errno == 2 || errno == 19 {
        ConnectError::SubsystemUnavailable
    } else if errno == 1 || errno == 13 {
        ConnectError::PermissionDenied
    } else {
        ConnectError::Other
    }
}

/// Classify the OS error of a failed open of the emulation subsystem's
/// device node: a missing node or device means the subsystem is not
/// there; a permission error means it is there but closed to this
/// process; anything else stays unclassified.
pub fn classify_connect_errno(errno: i32) -> (r: ConnectError)
    ensures
        r == connect_error_spec(errno),
{
    if errno == 2 || errno == 19 {
        ConnectError::SubsystemUnavailable
    } else if errno == 1 || errno == 13 {
        ConnectError::PermissionDenied
    } else {
        ConnectError::Other
    }
}

/// Button flags of the virtual bus's wire record, one bit per button.
pub const XUSB_DPAD_UP: u16 = 0x0001;

pub const XUSB_DPAD_DOWN: u16 = 0x0002;

pub const XUSB_DPAD_LEFT: u16 = 0x0004;

pub const XUSB_DPAD_RIGHT: u16 = 0x0008;

pub const XUSB_START: u16 = 0x0010;

pub const XUSB_BACK: u16 = 0x0020;

pub const XUSB_LEFT_THUMB: u16 = 0x0040;

pub const XUSB_RIGHT_THUMB: u16 = 0x0080;

pub const XUSB_LEFT_BUMPER: u16 = 0x0100;

pub const XUSB_RIGHT_BUMPER: u16 = 0x0200;

pub const XUSB_GUIDE: u16 = 0x0400;

pub const XUSB_A: u16 = 0x1000;

pub const XUSB_B: u16 = 0x2000;

pub const XUSB_X: u16 = 0x4000;

pub const XUSB_Y: u16 = 0x8000;

/// One button's contribution to the button word.
pub open spec fn flag_if(pressed: bool, flag: u16) -> int {
    if pressed {
        flag as int
    } else {
        0
    }
}

/// One button's contribution to the button word.
fn flag_word(pressed: bool, flag: u16) -> (r: u16)
    ensures
        r == flag_if(pressed, flag),
        r <= flag,
{
    if pressed {
        flag
    } else {
        0
    }
}

/// The dpad, start, back and thumb flags of the button word.
pub open spec fn xusb_buttons_low_spec(b: XboxButtons) -> int {
    flag_if(b.dpad_up, XUSB_DPAD_UP) + flag_if(b.dpad_down, XUSB_DPAD_DOWN) + flag_if(
        b.dpad_left,
        XUSB_DPAD_LEFT,
    ) + flag_if(b.dpad_right, XUSB_DPAD_RIGHT) + flag_if(b.start, XUSB_START) + flag_if(
        b.back,
        XUSB_BACK,
    ) + flag_if(b.left_thumb, XUSB_LEFT_THUMB) + flag_if(b.right_thumb, XUSB_RIGHT_THUMB)
}

/// The bumper, guide and face-button flags of the button word.
pub open spec fn xusb_buttons_high_spec(b: XboxButtons) -> int {
    flag_if(b.left_bumper, XUSB_LEFT_BUMPER) + flag_if(b.right_bumper, XUSB_RIGHT_BUMPER)
        + flag_if(b.guide, XUSB_GUIDE) + flag_if(b.a, XUSB_A) + flag_if(b.b, XUSB_B) + flag_if(
        b.x,
        XUSB_X,
    ) + flag_if(b.y, XUSB_Y)
}

/// The button word of the wire record: the sum of the flags of the
/// pressed buttons. Each flag is a distinct bit, so the sum is also the
/// bitwise OR.
pub open spec fn xusb_buttons_spec(b: XboxButtons) -> int {
    xusb_buttons_low_spec(b) + xusb_buttons_high_spec(b)
}



/// One frame of state in the virtual bus's native wire record: 16-bit
/// thumb axes, 8-bit triggers and a button bit-field.
#[derive(Debug, Clone, Copy, PartialEq, Eq, Structural)]
pub struct XusbReport {
    /// Button flags, one bit per pressed button.
    pub buttons: u16,
    /// Left trigger on its 8-bit range.
    pub left_trigger: u8,
    /// Right trigger on its 8-bit range.
    pub right_trigger: u8,
    /// Left stick X on its 16-bit range.
    pub thumb_lx: i16,
    /// Left stick Y on its 16-bit range.
    pub thumb_ly: i16,
    /// Right stick X on its 16-bit range.
    pub thumb_rx: i16,
    /// Right stick Y on its 16-bit range.
    pub thumb_ry: i16,
}

/// A normalized stick value on the 16-bit wire range, truncating toward
/// zero.
pub open spec fn thumb_raw_spec(v: int) -> int {
    scale_signed_spec(v, THUMB_FULL as int, AXIS_SCALE as int)
}

/// A normalized trigger value on the 8-bit wire range, truncating.
pub open spec fn trigger_raw_spec(v: int) -> int {
    scale_fraction_spec(v, TRIGGER_FULL as int, AXIS_SCALE as int)
}

/// The low half of the button word.
fn xusb_buttons_low(b: &XboxButtons) -> (r: u16)
    ensures
        r == xusb_buttons_low_spec(*b),
        r <= 0x00ff,
{
    let w1: u16 = flag_word(b.dpad_up, XUSB_DPAD_UP);
    let w2: u16 = w1 + flag_word(b.dpad_down, XUSB_DPAD_DOWN);
    let w3: u16 = w2 + flag_word(b.dpad_left, XUSB_DPAD_LEFT);
    let w4: u16 = w3 + flag_word(b.dpad_right, XUSB_DPAD_RIGHT);
    let w5: u16 = w4 + flag_word(b.start, XUSB_START);
    let w6: u16 = w5 + flag_word(b.back, XUSB_BACK);
    let w7: u16 = w6 + flag_word(b.left_thumb, XUSB_LEFT_THUMB);
    let w8: u16 = w7 + flag_word(b.right_thumb, XUSB_RIGHT_THUMB);
    w8
}

/// The high half of the button word.
fn xusb_buttons_high(b: &XboxButtons) -> (r: u16)
    ensures
        r == xusb_buttons_high_spec(*b),
        r <= 0xf700,
{
    let w1: u16 = flag_word(b.left_bumper, XUSB_LEFT_BUMPER);
    let w2: u16 = w1 + flag_word(b.right_bumper, XUSB_RIGHT_BUMPER);
    let w3: u16 = w2 + flag_word(b.guide, XUSB_GUIDE);
    let w4: u16 = w3 + flag_word(b.a, XUSB_A);
    let w5: u16 = w4 + flag_word(b.b, XUSB_B);
    let w6: u16 = w5 + flag_word(b.x, XUSB_X);
    let w7: u16 = w6 + flag_word(b.y, XUSB_Y);
    w7
}

/// The button word of the wire record, bit for bit as
/// [`xusb_buttons_spec`] says.
pub fn xusb_buttons(b: &XboxButtons) -> (r: u16)
    ensures
        r == xusb_buttons_spec(*b),
{
    xusb_buttons_low(b) + xusb_buttons_high(b)
}

/// Encode one frame of normalized state as the bus's wire record.
///
/// Every field of the record is pinned: sticks and triggers are the
/// truncating rescale of the frame's normalized values, and the button
/// word is exactly [`xusb_buttons_spec`].
pub fn xusb_report(state: &XboxControllerState) -> (r: XusbReport)
    requires
        state.wf(),
    ensures
        r.buttons == xusb_buttons_spec(state.buttons),
        r.thumb_lx == thumb_raw_spec(state.left_stick_x as int),
        r.thumb_ly == thumb_raw_spec(state.left_stick_y as int),
        r.thumb_rx == thumb_raw_spec(state.right_stick_x as int),
        r.thumb_ry == thumb_raw_spec(state.right_stick_y as int),
        r.left_trigger == trigger_raw_spec(state.left_trigger as int),
        r.right_trigger == trigger_raw_spec(state.right_trigger as int),
{
    XusbReport {
        buttons: xusb_buttons(&state.buttons),
        left_trigger: scale_fraction(state.left_trigger as u32, TRIGGER_FULL, 1_000_000) as u8,
        right_trigger: scale_fraction(state.right_trigger as u32, TRIGGER_FULL, 1_000_000) as u8,
        thumb_lx: scale_signed(state.left_stick_x, THUMB_FULL, 1_000_000) as i16,
        thumb_ly: scale_signed(state.left_stick_y, THUMB_FULL, 1_000_000) as i16,
        thumb_rx: scale_signed(state.right_stick_x, THUMB_FULL, 1_000_000) as i16,
        thumb_ry: scale_signed(state.right_stick_y, THUMB_FULL, 1_000_000) as i16,
    }
}

/// Decode the virtual bus's rumble notification, whose motor strengths
/// arrive as bytes, onto the unit range.
pub fn rumble_from_bus(large: u8, small: u8) -> (r: RumbleState)
    ensures
        r.large_motor == scale_fraction_spec(large as int, AXIS_SCALE as int, 255),
        r.small_motor == scale_fraction_spec(small as int, AXIS_SCALE as int, 255),
        r.wf(),
{
    RumbleState {
        large_motor: scale_fraction(large as u32, 1_000_000, 255) as i32,
        small_motor: scale_fraction(small as u32, 1_000_000, 255) as i32,
    }
}

} // verus!

