//! The virtual controller's encodings and its force-effect listener.

use rowheel::uinput::ABS_HAT0X;
use rowheel::uinput::ABS_HAT0Y;
use rowheel::uinput::ABS_RZ;
use rowheel::uinput::ABS_X;
use rowheel::uinput::ABS_Z;
use rowheel::uinput::BTN_A;
use rowheel::uinput::BTN_Y;
use rowheel::uinput::EV_ABS;
use rowheel::uinput::EV_KEY;
use rowheel::uinput::EV_SYN;
use rowheel::uinput::FF_RUMBLE;
use rowheel::uinput::FFEffect;
use rowheel::uinput::FfListener;
use rowheel::uinput::SYN_REPORT;
use rowheel::uinput::decode_rumble_payload;
use rowheel::uinput::device_descriptor;
use rowheel::uinput::frame_events;
use rowheel::uinput::gamepad_axes;
use rowheel::uinput::gamepad_buttons;
use rowheel::virtual_controller::RumbleState;
use rowheel::virtual_controller::XboxControllerState;
use rowheel::virtual_controller::XusbReport;
use rowheel::virtual_controller::rumble_from_bus;
use rowheel::virtual_controller::xusb_report;
use rowheel::virtual_controller::classify_connect_errno;
use rowheel::virtual_controller::ConnectError;

fn rumble_effect(id: i16, strong: u16, weak: u16) -> FFEffect {
    let mut payload = vec![0u8; 48];
    payload[0] = (strong & 0xff) as u8;
    payload[1] = (strong >> 8) as u8;
    payload[2] = (weak & 0xff) as u8;
    payload[3] = (weak >> 8) as u8;
    FFEffect {
        effect_type: FF_RUMBLE,
        id,
        direction: 0x4000,
        trigger_button: 0,
        trigger_interval: 0,
        replay_length: 0,
        replay_delay: 0,
        payload,
    }
}

#[test]
fn a_frame_writes_every_field_then_one_sync() {
    let mut state = XboxControllerState::default();
    state.left_stick_x = 1_000_000;
    state.left_trigger = 1_000_000;
    state.right_trigger = 500_000;
    state.buttons.a = true;
    state.buttons.dpad_left = true;
    let frame = frame_events(&state);
    assert_eq!(frame.len(), 20);
    let last = &frame[19];
    assert_eq!(last.event_type, EV_SYN);
    assert_eq!(last.code, SYN_REPORT);
    assert_eq!(last.value, 0);
    for ev in &frame[..19] {
        assert_ne!(ev.event_type, EV_SYN);
    }
    assert_eq!(frame[0].event_type, EV_ABS);
    assert_eq!(frame[0].code, ABS_X);
    assert_eq!(frame[0].value, 32767);
    assert_eq!(frame[4].code, ABS_Z);
    assert_eq!(frame[4].value, 255);
    assert_eq!(frame[5].code, ABS_RZ);
    assert_eq!(frame[5].value, 127);
    assert_eq!(frame[6].event_type, EV_KEY);
    assert_eq!(frame[6].code, BTN_A);
    assert_eq!(frame[6].value, 1);
    assert_eq!(frame[9].code, BTN_Y);
    assert_eq!(frame[9].value, 0);
    assert_eq!(frame[17].code, ABS_HAT0X);
    assert_eq!(frame[17].value, -1);
    assert_eq!(frame[18].code, ABS_HAT0Y);
    assert_eq!(frame[18].value, 0);
}

#[test]
fn a_neutral_frame_centers_everything() {
    let frame = frame_events(&XboxControllerState::default());
    for ev in &frame[..19] {
        assert_eq!(ev.value, 0);
    }
}

#[test]
fn negative_deflection_scales_toward_zero() {
    let mut state = XboxControllerState::default();
    state.left_stick_x = -1_000_000;
    state.left_stick_y = -500_000;
    let frame = frame_events(&state);
    assert_eq!(frame[0].value, -32767);
    assert_eq!(frame[1].value, -16383);
}

#[test]
fn the_descriptor_advertises_the_gamepad_ranges() {
    let d = device_descriptor(b"Virtual Wheel Pad".to_vec());
    assert_eq!(d.id.bustype, 0x03);
    assert_eq!(d.id.vendor, 0x045e);
    assert_eq!(d.id.product, 0x028e);
    assert_eq!(d.ff_effects_max, 16);
    assert_eq!(d.absmin[ABS_X as usize], -32768);
    assert_eq!(d.absmax[ABS_X as usize], 32767);
    assert_eq!(d.absmin[ABS_Z as usize], 0);
    assert_eq!(d.absmax[ABS_Z as usize], 255);
    assert_eq!(d.absmin[ABS_HAT0X as usize], -1);
    assert_eq!(d.absmax[ABS_HAT0Y as usize], 1);
    assert_eq!(d.absmax[20], 0);
    assert_eq!(gamepad_buttons().len(), 11);
    assert_eq!(gamepad_axes().len(), 8);
}

#[test]
fn rumble_payload_decodes_little_endian_words() {
    let payload = vec![0x34u8, 0x12, 0xcd, 0xab];
    let decoded = decode_rumble_payload(&payload);
    assert_eq!(decoded.strong_magnitude, 0x1234);
    assert_eq!(decoded.weak_magnitude, 0xabcd);
}

#[test]
fn pull_rumble_is_silent_before_any_play() {
    let listener = FfListener::new();
    let r = listener.pull_rumble();
    assert_eq!(r.large_motor, 0);
    assert_eq!(r.small_motor, 0);
}

#[test]
fn upload_alone_does_not_move_the_motors() {
    let mut listener = FfListener::new();
    listener.on_upload(&rumble_effect(1, 0xffff, 0x8000));
    let r = listener.pull_rumble();
    assert_eq!(r, RumbleState { large_motor: 0, small_motor: 0 });
}

#[test]
fn playing_an_uploaded_effect_sets_the_scaled_magnitudes() {
    let mut listener = FfListener::new();
    listener.on_upload(&rumble_effect(1, 0xffff, 0x8000));
    listener.on_play(1, 1);
    let r = listener.pull_rumble();
    assert_eq!(r.large_motor, 1_000_000);
    assert_eq!(r.small_motor, 500_007);
}

#[test]
fn a_reupload_replaces_the_effect_in_its_slot() {
    let mut listener = FfListener::new();
    listener.on_upload(&rumble_effect(2, 0x1000, 0));
    listener.on_upload(&rumble_effect(2, 0xffff, 0));
    listener.on_play(2, 1);
    assert_eq!(listener.pull_rumble().large_motor, 1_000_000);
    assert_eq!(listener.effects.len(), 1);
}

#[test]
fn playing_an_unknown_effect_changes_nothing() {
    let mut listener = FfListener::new();
    listener.on_upload(&rumble_effect(1, 0xffff, 0));
    listener.on_play(1, 1);
    listener.on_play(9, 1);
    assert_eq!(listener.pull_rumble().large_motor, 1_000_000);
}

#[test]
fn a_stop_request_silences_both_motors() {
    let mut listener = FfListener::new();
    listener.on_upload(&rumble_effect(1, 0xffff, 0xffff));
    listener.on_play(1, 1);
    listener.on_play(1, 0);
    assert_eq!(listener.pull_rumble(), RumbleState { large_motor: 0, small_motor: 0 });
}

#[test]
fn erase_drops_the_slot_but_not_the_command() {
    let mut listener = FfListener::new();
    listener.on_upload(&rumble_effect(1, 0xffff, 0));
    listener.on_play(1, 1);
    listener.on_erase(1);
    assert_eq!(listener.effects.len(), 0);
    assert_eq!(listener.pull_rumble().large_motor, 1_000_000);
    // A later play of the erased slot finds nothing.
    listener.on_play(1, 1);
    assert_eq!(listener.pull_rumble().large_motor, 1_000_000);
}

#[test]
fn non_rumble_effects_are_not_stored() {
    let mut listener = FfListener::new();
    let mut effect = rumble_effect(1, 0xffff, 0);
    effect.effect_type = 0x52;
    listener.on_upload(&effect);
    assert_eq!(listener.effects.len(), 0);
}

#[test]
fn the_bus_record_rescales_sticks_and_triggers() {
    let mut state = XboxControllerState::default();
    state.left_stick_x = -1_000_000;
    state.left_stick_y = 300_000;
    state.right_trigger = 1_000_000;
    state.left_trigger = 500_000;
    let report = xusb_report(&state);
    assert_eq!(report.thumb_lx, -32767);
    assert_eq!(report.thumb_ly, 9830);
    assert_eq!(report.thumb_rx, 0);
    assert_eq!(report.right_trigger, 255);
    assert_eq!(report.left_trigger, 127);
}

#[test]
fn the_bus_record_packs_buttons_into_their_bits() {
    let mut state = XboxControllerState::default();
    state.buttons.a = true;
    state.buttons.y = true;
    state.buttons.dpad_up = true;
    state.buttons.left_bumper = true;
    let report = xusb_report(&state);
    assert_eq!(report.buttons, 0x1000 + 0x8000 + 0x0001 + 0x0100);
    let empty = xusb_report(&XboxControllerState::default());
    assert_eq!(
        empty,
        XusbReport {
            buttons: 0,
            left_trigger: 0,
            right_trigger: 0,
            thumb_lx: 0,
            thumb_ly: 0,
            thumb_rx: 0,
            thumb_ry: 0,
        },
    );
}

#[test]
fn bus_rumble_notifications_scale_onto_the_unit_range() {
    let r = rumble_from_bus(255, 0);
    assert_eq!(r.large_motor, 1_000_000);
    assert_eq!(r.small_motor, 0);
    let r = rumble_from_bus(128, 255);
    assert_eq!(r.large_motor, 501_960);
    assert_eq!(r.small_motor, 1_000_000);
}

#[test]
fn connect_failures_are_classified_distinctly() {
    assert_eq!(classify_connect_errno(2), ConnectError::SubsystemUnavailable);
    assert_eq!(classify_connect_errno(19), ConnectError::SubsystemUnavailable);
    assert_eq!(classify_connect_errno(1), ConnectError::PermissionDenied);
    assert_eq!(classify_connect_errno(13), ConnectError::PermissionDenied);
    assert_eq!(classify_connect_errno(5), ConnectError::Other);
}
