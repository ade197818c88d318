//! The kernel virtual-input protocol: the event records one platform's
//! virtual gamepad is driven by, the device descriptor it is created with,
//! and the force-feedback records its background listener decodes.
//!
//! A state frame is a fixed sequence of field events closed by one sync
//! marker; [`frame_events`] builds it and [`lemma_frame_is_atomic`] states
//! that the marker comes last and only last, so a consumer never observes
//! a half-written frame as complete.

use vstd::prelude::*;

use crate::units::AXIS_SCALE;
use crate::units::scale_fraction;
use crate::units::scale_fraction_spec;
use crate::units::scale_signed;
use crate::units::scale_signed_spec;
use crate::virtual_controller::RumbleState;
use crate::virtual_controller::XboxControllerState;

verus! {

/// Synchronization event type.
pub const EV_SYN: u16 = 0x00;

/// Key (button) event type.
pub const EV_KEY: u16 = 0x01;

/// Absolute-axis event type.
pub const EV_ABS: u16 = 0x03;

/// Force-feedback event type: a play or stop request for an uploaded effect.
pub const EV_FF: u16 = 0x15;

/// Virtual-device control event type: an effect upload or erase request.
pub const EV_UINPUT: u16 = 0x0101;

/// The "frame complete" sync code.
pub const SYN_REPORT: u16 = 0x00;

/// The rumble force-feedback effect type.
pub const FF_RUMBLE: u16 = 0x50;

/// Control code: a force effect is being uploaded.
pub const UI_FF_UPLOAD: u16 = 1;

/// Control code: a force effect is being erased.
pub const UI_FF_ERASE: u16 = 2;

/// Gamepad button codes.
pub const BTN_A: u16 = 0x130;

pub const BTN_B: u16 = 0x131;

pub const BTN_X: u16 = 0x133;

pub const BTN_Y: u16 = 0x134;

pub const BTN_TL: u16 = 0x136;

pub const BTN_TR: u16 = 0x137;

pub const BTN_SELECT: u16 = 0x13a;

pub const BTN_START: u16 = 0x13b;

pub const BTN_MODE: u16 = 0x13c;

pub const BTN_THUMBL: u16 = 0x13d;

pub const BTN_THUMBR: u16 = 0x13e;

/// Absolute-axis codes.
pub const ABS_X: u16 = 0x00;

pub const ABS_Y: u16 = 0x01;

pub const ABS_Z: u16 = 0x02;

pub const ABS_RX: u16 = 0x03;

pub const ABS_RY: u16 = 0x04;

pub const ABS_RZ: u16 = 0x05;

pub const ABS_HAT0X: u16 = 0x10;

pub const ABS_HAT0Y: u16 = 0x11;

/// Stick axis range advertised by the virtual gamepad.
pub const AXIS_RAW_MIN: i32 = -32768;

pub const AXIS_RAW_MAX: i32 = 32767;

/// Trigger axis range advertised by the virtual gamepad.
pub const TRIGGER_RAW_MIN: i32 = 0;

pub const TRIGGER_RAW_MAX: i32 = 255;

/// One event record of the virtual-input protocol: a typed code with a
/// value. (The wire form carries a timestamp too; the kernel fills it in,
/// so the writer sends zeros.)
#[derive(Debug, Clone, Copy, PartialEq, Eq, Structural)]
pub struct UinputEvent {
    /// Event type: one of the `EV_*` constants.
    pub event_type: u16,
    /// Event code within the type: an axis, button or control code.
    pub code: u16,
    /// Event value: axis position, key state, or request id.
    pub value: i32,
}

/// A stick value on the device's advertised 16-bit axis range, truncating
/// toward zero.
pub open spec fn stick_raw_spec(v: i32) -> i32 {
    scale_signed_spec(v as int, AXIS_RAW_MAX as int, AXIS_SCALE as int) as i32
}

/// A trigger value on the device's advertised 8-bit range, truncating.
pub open spec fn pedal_raw_spec(v: i32) -> i32 {
    scale_fraction_spec(v as int, TRIGGER_RAW_MAX as int, AXIS_SCALE as int) as i32
}

/// A button state as a key-event value.
pub open spec fn key_value_spec(pressed: bool) -> i32 {
    if pressed {
        1i32
    } else {
        0i32
    }
}

/// A d-pad pair as a hat-axis value: the pressed direction wins, both or
/// neither centers the hat.
pub open spec fn hat_value_spec(negative: bool, positive: bool) -> i32 {
    if negative && !positive {
        -1i32
    } else if positive && !negative {
        1i32
    } else {
        0i32
    }
}

/// The stick and pedal field events of a frame, in their fixed order.
pub open spec fn axis_events_spec(state: XboxControllerState) -> Seq<UinputEvent> {
    seq![
        UinputEvent { event_type: EV_ABS, code: ABS_X, value: stick_raw_spec(state.left_stick_x) },
        UinputEvent { event_type: EV_ABS, code: ABS_Y, value: stick_raw_spec(state.left_stick_y) },
        UinputEvent { event_type: EV_ABS, code: ABS_RX, value: stick_raw_spec(state.right_stick_x) },
        UinputEvent { event_type: EV_ABS, code: ABS_RY, value: stick_raw_spec(state.right_stick_y) },
        UinputEvent { event_type: EV_ABS, code: ABS_Z, value: pedal_raw_spec(state.left_trigger) },
        UinputEvent { event_type: EV_ABS, code: ABS_RZ, value: pedal_raw_spec(state.right_trigger) },
    ]
}

/// The button field events of a frame, in their fixed order.
pub open spec fn button_events_spec(state: XboxControllerState) -> Seq<UinputEvent> {
    seq![
        UinputEvent { event_type: EV_KEY, code: BTN_A, value: key_value_spec(state.buttons.a) },
        UinputEvent { event_type: EV_KEY, code: BTN_B, value: key_value_spec(state.buttons.b) },
        UinputEvent { event_type: EV_KEY, code: BTN_X, value: key_value_spec(state.buttons.x) },
        UinputEvent { event_type: EV_KEY, code: BTN_Y, value: key_value_spec(state.buttons.y) },
        UinputEvent { event_type: EV_KEY, code: BTN_TL, value: key_value_spec(state.buttons.left_bumper) },
        UinputEvent { event_type: EV_KEY, code: BTN_TR, value: key_value_spec(state.buttons.right_bumper) },
        UinputEvent { event_type: EV_KEY, code: BTN_SELECT, value: key_value_spec(state.buttons.back) },
        UinputEvent { event_type: EV_KEY, code: BTN_START, value: key_value_spec(state.buttons.start) },
        UinputEvent { event_type: EV_KEY, code: BTN_MODE, value: key_value_spec(state.buttons.guide) },
        UinputEvent { event_type: EV_KEY, code: BTN_THUMBL, value: key_value_spec(state.buttons.left_thumb) },
        UinputEvent { event_type: EV_KEY, code: BTN_THUMBR, value: key_value_spec(state.buttons.right_thumb) },
    ]
}

/// The d-pad hat events and the closing sync marker of a frame.
pub open spec fn tail_events_spec(state: XboxControllerState) -> Seq<UinputEvent> {
    seq![
        UinputEvent { event_type: EV_ABS, code: ABS_HAT0X, value: hat_value_spec(state.buttons.dpad_left, state.buttons.dpad_right) },
        UinputEvent { event_type: EV_ABS, code: ABS_HAT0Y, value: hat_value_spec(state.buttons.dpad_up, state.buttons.dpad_down) },
        UinputEvent { event_type: EV_SYN, code: SYN_REPORT, value: 0 },
    ]
}

/// The full frame a state snapshot is written as: every axis and button
/// field in a fixed order, closed by exactly one sync marker.
pub open spec fn frame_events_spec(state: XboxControllerState) -> Seq<UinputEvent> {
    axis_events_spec(state) + button_events_spec(state) + tail_events_spec(state)
}

/// A frame is atomic from the reader's side: the one and only sync marker
/// stands at the end, after every field event, so a consumer that waits
/// for the marker never takes a half-written frame as complete.
pub proof fn lemma_frame_is_atomic(state: XboxControllerState)
    ensures
        frame_events_spec(state).len() == 20,
        frame_events_spec(state).last().event_type == EV_SYN,
        frame_events_spec(state).last().code == SYN_REPORT,
        forall|i: int| 0 <= i < 19 ==> frame_events_spec(state)[i].event_type != EV_SYN,
{
    let axes = axis_events_spec(state);
    let keys = button_events_spec(state);
    let tail = tail_events_spec(state);
    assert forall|i: int| 0 <= i < 6 implies axes[i].event_type == EV_ABS by {
        assert(axes[i].event_type == EV_ABS);
    }
    assert forall|i: int| 0 <= i < 11 implies keys[i].event_type == EV_KEY by {
        assert(keys[i].event_type == EV_KEY);
    }
    assert forall|i: int| 0 <= i < 19 implies frame_events_spec(state)[i].event_type != EV_SYN by {
        if i < 6 {
            assert(frame_events_spec(state)[i] == axes[i]);
        } else if i < 17 {
            assert(frame_events_spec(state)[i] == keys[i - 6]);
        } else {
            assert(frame_events_spec(state)[i] == tail[i - 17]);
            assert(tail[0].event_type == EV_ABS);
            assert(tail[1].event_type == EV_ABS);
        }
    }
}

/// A button state as a key-event value.
fn key_value(pressed: bool) -> (r: i32)
    ensures
        r == key_value_spec(pressed),
{
    if pressed {
        1
    } else {
        0
    }
}

/// A d-pad pair as a hat-axis value.
fn hat_value(negative: bool, positive: bool) -> (r: i32)
    ensures
        r == hat_value_spec(negative, positive),
{
    if negative && !positive {
        -1
    } else if positive && !negative {
        1
    } else {
        0
    }
}

/// A stick value on the device's 16-bit axis range.
fn stick_raw(v: i32) -> (r: i32)
    requires
        crate::units::in_axis_range(v as int),
    ensures
        r == stick_raw_spec(v),
        AXIS_RAW_MIN <= r <= AXIS_RAW_MAX,
{
    scale_signed(v, 32767, 1_000_000)
}

/// A trigger value on the device's 8-bit range.
fn pedal_raw(v: i32) -> (r: i32)
    requires
        crate::units::in_trigger_range(v as int),
    ensures
        r == pedal_raw_spec(v),
        TRIGGER_RAW_MIN <= r <= TRIGGER_RAW_MAX,
{
    scale_fraction(v as u32, 255, 1_000_000) as i32
}

/// The stick and pedal field events of a frame.
fn axis_events(state: &XboxControllerState) -> (r: Vec<UinputEvent>)
    requires
        state.wf(),
    ensures
        r@ =~= axis_events_spec(*state),
{
    let mut r: Vec<UinputEvent> = Vec::new();
    r.push(UinputEvent { event_type: EV_ABS, code: ABS_X, value: stick_raw(state.left_stick_x) });
    r.push(UinputEvent { event_type: EV_ABS, code: ABS_Y, value: stick_raw(state.left_stick_y) });
    r.push(
        UinputEvent { event_type: EV_ABS, code: ABS_RX, value: stick_raw(state.right_stick_x) },
    );
    r.push(
        UinputEvent { event_type: EV_ABS, code: ABS_RY, value: stick_raw(state.right_stick_y) },
    );
    r.push(UinputEvent { event_type: EV_ABS, code: ABS_Z, value: pedal_raw(state.left_trigger) });
    r.push(
        UinputEvent { event_type: EV_ABS, code: ABS_RZ, value: pedal_raw(state.right_trigger) },
    );
    r
}

/// The button field events of a frame.
fn button_events(state: &XboxControllerState) -> (r: Vec<UinputEvent>)
    ensures
        r@ =~= button_events_spec(*state),
{
    let mut r: Vec<UinputEvent> = Vec::new();
    r.push(UinputEvent { event_type: EV_KEY, code: BTN_A, value: key_value(state.buttons.a) });
    r.push(UinputEvent { event_type: EV_KEY, code: BTN_B, value: key_value(state.buttons.b) });
    r.push(UinputEvent { event_type: EV_KEY, code: BTN_X, value: key_value(state.buttons.x) });
    r.push(UinputEvent { event_type: EV_KEY, code: BTN_Y, value: key_value(state.buttons.y) });
    r.push(
        UinputEvent {
            event_type: EV_KEY,
            code: BTN_TL,
            value: key_value(state.buttons.left_bumper),
        },
    );
    r.push(
        UinputEvent {
            event_type: EV_KEY,
            code: BTN_TR,
            value: key_value(state.buttons.right_bumper),
        },
    );
    r.push(
        UinputEvent { event_type: EV_KEY, code: BTN_SELECT, value: key_value(state.buttons.back) },
    );
    r.push(
        UinputEvent { event_type: EV_KEY, code: BTN_START, value: key_value(state.buttons.start) },
    );
    r.push(
        UinputEvent { event_type: EV_KEY, code: BTN_MODE, value: key_value(state.buttons.guide) },
    );
    r.push(
        UinputEvent {
            event_type: EV_KEY,
            code: BTN_THUMBL,
            value: key_value(state.buttons.left_thumb),
        },
    );
    r.push(
        UinputEvent {
            event_type: EV_KEY,
            code: BTN_THUMBR,
            value: key_value(state.buttons.right_thumb),
        },
    );
    r
}

/// Encode one state snapshot as its full event frame: all fields, then
/// the sync marker, exactly as [`frame_events_spec`] lays them out.
pub fn frame_events(state: &XboxControllerState) -> (r: Vec<UinputEvent>)
    requires
        state.wf(),
    ensures
        r@ =~= frame_events_spec(*state),
{
    let mut r = axis_events(state);
    let mut keys = button_events(state);
    r.append(&mut keys);
    r.push(
        UinputEvent {
            event_type: EV_ABS,
            code: ABS_HAT0X,
            value: hat_value(state.buttons.dpad_left, state.buttons.dpad_right),
        },
    );
    r.push(
        UinputEvent {
            event_type: EV_ABS,
            code: ABS_HAT0Y,
            value: hat_value(state.buttons.dpad_up, state.buttons.dpad_down),
        },
    );
    r.push(UinputEvent { event_type: EV_SYN, code: SYN_REPORT, value: 0 });
    proof {
        assert(r@ =~= frame_events_spec(*state));
    }
    r
}

/// Identity block of the device descriptor.
#[derive(Debug, Clone, Copy, PartialEq, Eq, Structural)]
pub struct InputId {
    /// Bus the device claims to sit on.
    pub bustype: u16,
    /// Vendor id the device claims.
    pub vendor: u16,
    /// Product id the device claims.
    pub product: u16,
    /// Version the device claims.
    pub version: u16,
}

/// The descriptor a virtual gamepad device is created with: its name and
/// identity, how many force effects it accepts, and per-axis ranges.
/// (The wire form uses fixed-size arrays; the writer lays these vectors
/// out into them unchanged.)
pub struct UinputUserDev {
    /// Device name bytes, at most 80.
    pub name: Vec<u8>,
    /// Claimed identity.
    pub id: InputId,
    /// How many force-feedback effects the device accepts at once.
    pub ff_effects_max: u32,
    /// Per-axis maximum, indexed by axis code.
    pub absmax: Vec<i32>,
    /// Per-axis minimum, indexed by axis code.
    pub absmin: Vec<i32>,
    /// Per-axis fuzz, indexed by axis code.
    pub absfuzz: Vec<i32>,
    /// Per-axis flat zone, indexed by axis code.
    pub absflat: Vec<i32>,
}

/// Build the descriptor of the virtual gamepad: a USB Xbox-class pad with
/// sticks on the signed 16-bit range, triggers on the 8-bit range, a hat
/// on `[-1, 1]`, and room for 16 force effects. Axis slots not advertised
/// stay zero.
pub fn device_descriptor(name: Vec<u8>) -> (r: UinputUserDev)
    requires
        name@.len() <= 80,
    ensures
        r.name == name,
        r.id == (InputId { bustype: 0x03, vendor: 0x045e, product: 0x028e, version: 0x0110 }),
        r.ff_effects_max == 16,
        r.absmin@.len() == 64 && r.absmax@.len() == 64 && r.absfuzz@.len() == 64 && r.absflat@.len()
            == 64,
        r.absmin@[ABS_X as int] == AXIS_RAW_MIN && r.absmax@[ABS_X as int] == AXIS_RAW_MAX,
        r.absmin@[ABS_Y as int] == AXIS_RAW_MIN && r.absmax@[ABS_Y as int] == AXIS_RAW_MAX,
        r.absmin@[ABS_RX as int] == AXIS_RAW_MIN && r.absmax@[ABS_RX as int] == AXIS_RAW_MAX,
        r.absmin@[ABS_RY as int] == AXIS_RAW_MIN && r.absmax@[ABS_RY as int] == AXIS_RAW_MAX,
        r.absmin@[ABS_Z as int] == TRIGGER_RAW_MIN && r.absmax@[ABS_Z as int] == TRIGGER_RAW_MAX,
        r.absmin@[ABS_RZ as int] == TRIGGER_RAW_MIN && r.absmax@[ABS_RZ as int] == TRIGGER_RAW_MAX,
        r.absmin@[ABS_HAT0X as int] == -1 && r.absmax@[ABS_HAT0X as int] == 1,
        r.absmin@[ABS_HAT0Y as int] == -1 && r.absmax@[ABS_HAT0Y as int] == 1,
        forall|i: int| 0 <= i < 64 ==> r.absfuzz@[i] == 0 && r.absflat@[i] == 0,
{
    let mut absmin: Vec<i32> = vec![0; 64];
    let mut absmax: Vec<i32> = vec![0; 64];
    let absfuzz: Vec<i32> = vec![0; 64];
    let absflat: Vec<i32> = vec![0; 64];
    absmin.set(ABS_X as usize, AXIS_RAW_MIN);
    absmax.set(ABS_X as usize, AXIS_RAW_MAX);
    absmin.set(ABS_Y as usize, AXIS_RAW_MIN);
    absmax.set(ABS_Y as usize, AXIS_RAW_MAX);
    absmin.set(ABS_RX as usize, AXIS_RAW_MIN);
    absmax.set(ABS_RX as usize, AXIS_RAW_MAX);
    absmin.set(ABS_RY as usize, AXIS_RAW_MIN);
    absmax.set(ABS_RY as usize, AXIS_RAW_MAX);
    absmin.set(ABS_Z as usize, TRIGGER_RAW_MIN);
    absmax.set(ABS_Z as usize, TRIGGER_RAW_MAX);
    absmin.set(ABS_RZ as usize, TRIGGER_RAW_MIN);
    absmax.set(ABS_RZ as usize, TRIGGER_RAW_MAX);
    absmin.set(ABS_HAT0X as usize, -1);
    absmax.set(ABS_HAT0X as usize, 1);
    absmin.set(ABS_HAT0Y as usize, -1);
    absmax.set(ABS_HAT0Y as usize, 1);
    UinputUserDev {
        name,
        id: InputId { bustype: 0x03, vendor: 0x045e, product: 0x028e, version: 0x0110 },
        ff_effects_max: 16,
        absmax,
        absmin,
        absfuzz,
        absflat,
    }
}

/// The button capability bits the virtual gamepad registers.
pub fn gamepad_buttons() -> (r: Vec<u16>)
    ensures
        r@ =~= seq![
            BTN_A, BTN_B, BTN_X, BTN_Y, BTN_TL, BTN_TR, BTN_SELECT, BTN_START, BTN_MODE,
            BTN_THUMBL, BTN_THUMBR,
        ],
{
    let mut r: Vec<u16> = Vec::new();
    r.push(BTN_A);
    r.push(BTN_B);
    r.push(BTN_X);
    r.push(BTN_Y);
    r.push(BTN_TL);
    r.push(BTN_TR);
    r.push(BTN_SELECT);
    r.push(BTN_START);
    r.push(BTN_MODE);
    r.push(BTN_THUMBL);
    r.push(BTN_THUMBR);
    r
}

/// The magnitudes of a rumble effect: strong (large) and weak (small)
/// motor, each on the full 16-bit range.
#[derive(Debug, Clone, Copy, PartialEq, Eq, Structural)]
pub struct FFRumbleEffect {
    /// Strong (large) motor magnitude.
    pub strong_magnitude: u16,
    /// Weak (small) motor magnitude.
    pub weak_magnitude: u16,
}

/// A force effect as the kernel hands it to the virtual device: type,
/// slot id, direction, trigger and replay words, and the type-specific
/// payload bytes (48 of them on the wire; a rumble effect uses the first
/// four).
pub struct FFEffect {
    /// Effect type: [`FF_RUMBLE`] is the one the listener stores.
    pub effect_type: u16,
    /// The effect's slot id.
    pub id: i16,
    /// Direction of the effect.
    pub direction: u16,
    /// Triggering button, if any.
    pub trigger_button: u16,
    /// Minimum interval between triggered replays.
    pub trigger_interval: u16,
    /// Replay length.
    pub replay_length: u16,
    /// Replay delay.
    pub replay_delay: u16,
    /// Type-specific payload bytes.
    pub payload: Vec<u8>,
}

/// An effect-upload request: the kernel passes the effect in and the
/// device answers through `retval`.
pub struct UinputFFUpload {
    /// Request id from the control event.
    pub request_id: u32,
    /// The device's answer: 0 accepts the upload.
    pub retval: i32,
    /// The effect being uploaded.
    pub effect: FFEffect,
    /// The effect previously in the slot.
    pub old: FFEffect,
}

/// An effect-erase request.
#[derive(Debug, Clone, Copy, PartialEq, Eq, Structural)]
pub struct UinputFFErase {
    /// Request id from the control event.
    pub request_id: u32,
    /// The device's answer: 0 accepts the erase.
    pub retval: i32,
    /// The slot id being erased.
    pub effect_id: u32,
}

/// The rumble magnitudes held in an effect payload: two 16-bit words,
/// least-significant byte first.
pub open spec fn rumble_payload_spec(p: Seq<u8>) -> FFRumbleEffect {
    FFRumbleEffect {
        strong_magnitude: (p[0] + 256 * p[1]) as u16,
        weak_magnitude: (p[2] + 256 * p[3]) as u16,
    }
}

/// Decode the rumble magnitudes out of an effect payload.
pub fn decode_rumble_payload(p: &Vec<u8>) -> (r: FFRumbleEffect)
    requires
        p@.len() >= 4,
    ensures
        r == rumble_payload_spec(p@),
{
    FFRumbleEffect {
        strong_magnitude: p[0] as u16 + (p[1] as u16) * 256,
        weak_magnitude: p[2] as u16 + (p[3] as u16) * 256,
    }
}

/// A 16-bit effect magnitude on the unit intensity range, truncating.
pub open spec fn intensity_spec(m: u16) -> i32 {
    scale_fraction_spec(m as int, AXIS_SCALE as int, 0xffff) as i32
}

/// At most one stored effect per slot id.
pub open spec fn effects_unique(s: Seq<(i16, FFRumbleEffect)>) -> bool {
    forall|i: int, j: int| #![trigger s[i], s[j]] 0 <= i < j < s.len() ==> s[i].0 != s[j].0
}

/// Whether some stored effect occupies slot `id`.
pub open spec fn has_effect(s: Seq<(i16, FFRumbleEffect)>, id: i16) -> bool {
    exists|i: int| 0 <= i < s.len() && (#[trigger] s[i]).0 == id
}

/// The poll-only reader's side of the force-effect protocol: the rumble
/// effects currently uploaded, and the rumble command recovered from the
/// most recent play or stop request.
///
/// The background listener drives this state from decoded kernel events;
/// the foreground loop polls [`FfListener::pull_rumble`]. Before any
/// effect has been played the command is `{0, 0}`, and it stays whatever
/// the last play or stop request made it.
pub struct FfListener {
    /// The uploaded rumble effects, by slot id.
    pub effects: Vec<(i16, FFRumbleEffect)>,
    /// The rumble command the last play or stop request produced.
    pub rumble: RumbleState,
}

impl FfListener {
    /// Slot ids unique; the command on the unit range.
    pub open spec fn wf(self) -> bool {
        effects_unique(self.effects@) && self.rumble.wf()
    }

    /// A fresh listener: no effects, motors silent.
    pub fn new() -> (r: Self)
        ensures
            r.wf(),
            r.effects@.len() == 0,
            r.rumble == RumbleState::zero(),
    {
        FfListener { effects: Vec::new(), rumble: RumbleState { large_motor: 0, small_motor: 0 } }
    }

    /// The latest recovered rumble command. Never blocks, never changes
    /// anything: exactly the state the last play or stop request left.
    pub fn pull_rumble(&self) -> (r: RumbleState)
        ensures
            r == self.rumble,
    {
        self.rumble
    }

    /// Store an uploaded effect. A rumble effect replaces the effect in
    /// its slot or fills a new slot, with the magnitudes decoded from its
    /// payload; any other effect type is left unstored. The rumble
    /// command never changes here.
    #[verifier::loop_isolation(false)]
    pub fn on_upload(&mut self, effect: &FFEffect)
        requires
            old(self).wf(),
            effect.payload@.len() >= 4,
        ensures
            final(self).wf(),
            final(self).rumble == old(self).rumble,
            effect.effect_type != FF_RUMBLE ==> final(self).effects@ == old(self).effects@,
            effect.effect_type == FF_RUMBLE ==> {
                let decoded = rumble_payload_spec(effect.payload@);
                if has_effect(old(self).effects@, effect.id) {
                    &&& final(self).effects@.len() == old(self).effects@.len()
                    &&& forall|j: int|
                        0 <= j < old(self).effects@.len() ==> if (#[trigger] old(
                            self,
                        ).effects@[j]).0 == effect.id {
                            final(self).effects@[j] == (effect.id, decoded)
                        } else {
                            final(self).effects@[j] == old(self).effects@[j]
                        }
                } else {
                    final(self).effects@ == old(self).effects@.push((effect.id, decoded))
                }
            },
    {
        if effect.effect_type != FF_RUMBLE {
            return ;
        }
        let decoded = decode_rumble_payload(&effect.payload);
        let n = self.effects.len();
        let mut i: usize = 0;
        while i < n
            invariant
                self == old(self),
                n == self.effects.len(),
                i <= n,
                forall|j: int| 0 <= j < i ==> (#[trigger] self.effects@[j]).0 != effect.id,
            decreases n - i,
        {
            if self.effects[i].0 == effect.id {
                self.effects[i] = (effect.id, decoded);
                proof {
                    let s_old = old(self).effects@;
                    let s_new = self.effects@;
                    assert forall|p: int, q: int| 0 <= p < q < s_new.len() implies s_new[p].0
                        != s_new[q].0 by {
                        assert(s_old[p].0 != s_old[q].0);
                    }
                }
                return ;
            }
            i += 1;
        }
        self.effects.push((effect.id, decoded));
        proof {
            let s_old = old(self).effects@;
            let s_new = self.effects@;
            assert forall|p: int, q: int| 0 <= p < q < s_new.len() implies s_new[p].0 != s_new[q].0
            by {
                if q == n {
                    assert(s_old[p].0 != effect.id);
                } else {
                    assert(s_old[p].0 != s_old[q].0);
                }
            }
        }
    }

    /// Drop the effect stored in a slot, if any. The rumble command never
    /// changes here; which position the store reuses is not part of the
    /// contract beyond the slot being gone.
    #[verifier::loop_isolation(false)]
    pub fn on_erase(&mut self, effect_id: i16)
        requires
            old(self).wf(),
        ensures
            final(self).wf(),
            final(self).rumble == old(self).rumble,
            !has_effect(final(self).effects@, effect_id),
            !has_effect(old(self).effects@, effect_id) ==> final(self).effects@ == old(
                self,
            ).effects@,
            has_effect(old(self).effects@, effect_id) ==> exists|k: int|
                0 <= k < old(self).effects@.len() && (#[trigger] old(self).effects@[k]).0
                    == effect_id && final(self).effects@ =~= old(self).effects@.update(
                    k,
                    old(self).effects@.last(),
                ).drop_last(),
    {
        let n = self.effects.len();
        let mut i: usize = 0;
        while i < n
            invariant
                self == old(self),
                n == self.effects.len(),
                i <= n,
                forall|j: int| 0 <= j < i ==> (#[trigger] self.effects@[j]).0 != effect_id,
            decreases n - i,
        {
            if self.effects[i].0 == effect_id {
                self.effects.swap_remove(i);
                proof {
                    let s_old = old(self).effects@;
                    let s_new = self.effects@;
                    assert forall|p: int, q: int| 0 <= p < q < s_new.len() implies s_new[p].0
                        != s_new[q].0 by {
                        let a: int = if p == i {
                            s_old.len() - 1
                        } else {
                            p
                        };
                        let b: int = if q == i {
                            s_old.len() - 1
                        } else {
                            q
                        };
                        assert(s_new[p] == s_old[a]);
                        assert(s_new[q] == s_old[b]);
                        if a < b {
                            assert(s_old[a].0 != s_old[b].0);
                        } else {
                            assert(s_old[b].0 != s_old[a].0);
                        }
                    }
                    assert forall|j: int| 0 <= j < s_new.len() implies (#[trigger] s_new[j]).0
                        != effect_id by {
                        if j == i {
                            assert(s_new[j] == s_old[s_old.len() - 1]);
                        }
                    }
                }
                return ;
            }
            i += 1;
        }
    }

    /// Apply a play or stop request for a slot. A play (positive count)
    /// of a stored effect makes its magnitudes, rescaled onto the unit
    /// range, the current rumble command; a play of an unknown slot
    /// changes nothing; a stop (zero count) silences both motors. The
    /// stored effects never change here.
    #[verifier::loop_isolation(false)]
    pub fn on_play(&mut self, effect_id: i16, count: i32)
        requires
            old(self).wf(),
        ensures
            final(self).wf(),
            final(self).effects@ == old(self).effects@,
            count <= 0 ==> final(self).rumble == RumbleState::zero(),
            count > 0 && !has_effect(old(self).effects@, effect_id) ==> final(self).rumble == old(
                self,
            ).rumble,
            count > 0 && has_effect(old(self).effects@, effect_id) ==> exists|j: int|
                0 <= j < old(self).effects@.len() && (#[trigger] old(self).effects@[j]).0
                    == effect_id && final(self).rumble == (RumbleState {
                    large_motor: intensity_spec(old(self).effects@[j].1.strong_magnitude),
                    small_motor: intensity_spec(old(self).effects@[j].1.weak_magnitude),
                }),
    {
        if count <= 0 {
            self.rumble = RumbleState { large_motor: 0, small_motor: 0 };
            return ;
        }
        let n = self.effects.len();
        let mut i: usize = 0;
        while i < n
            invariant
                self == old(self),
                n == self.effects.len(),
                i <= n,
                forall|j: int| 0 <= j < i ==> (#[trigger] self.effects@[j]).0 != effect_id,
            decreases n - i,
        {
            if self.effects[i].0 == effect_id {
                let strong = self.effects[i].1.strong_magnitude;
                let weak = self.effects[i].1.weak_magnitude;
                self.rumble = RumbleState {
                    large_motor: scale_fraction(strong as u32, 1_000_000, 0xffff) as i32,
                    small_motor: scale_fraction(weak as u32, 1_000_000, 0xffff) as i32,
                };
                return ;
            }
            i += 1;
        }
    }
}

/// The absolute-axis capability bits the virtual gamepad registers.
pub fn gamepad_axes() -> (r: Vec<u16>)
    ensures
        r@ =~= seq![ABS_X, ABS_Y, ABS_RX, ABS_RY, ABS_Z, ABS_RZ, ABS_HAT0X, ABS_HAT0Y],
{
    let mut r: Vec<u16> = Vec::new();
    r.push(ABS_X);
    r.push(ABS_Y);
    r.push(ABS_RX);
    r.push(ABS_RY);
    r.push(ABS_Z);
    r.push(ABS_RZ);
    r.push(ABS_HAT0X);
    r.push(ABS_HAT0Y);
    r
}

} // verus!
