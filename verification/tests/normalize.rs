//! Axis-binding normalization: linearity anchors, clamping, inversion and
//! the degenerate range.

use rowheel::config::AxisBinding;
use rowheel::config::ButtonBinding;
use rowheel::config::WheelConfig;
use rowheel::units::AXIS_SCALE;

fn binding(min_value: i32, max_value: i32, inverted: bool) -> AxisBinding {
    AxisBinding {
        device_id: String::from("pad-0"),
        device_name: String::from("Test Wheel"),
        axis_code: 0,
        min_value,
        max_value,
        inverted,
    }
}

#[test]
fn normalize_maps_endpoints_and_center() {
    let b = binding(-500_000, 500_000, false);
    assert_eq!(b.normalize(-500_000), -AXIS_SCALE);
    assert_eq!(b.normalize(0), 0);
    assert_eq!(b.normalize(500_000), AXIS_SCALE);
}

#[test]
fn normalize_clamps_outside_the_calibrated_range() {
    let b = binding(-500_000, 500_000, false);
    assert_eq!(b.normalize(750_000), AXIS_SCALE);
    assert_eq!(b.normalize(-900_000), -AXIS_SCALE);
}

#[test]
fn normalize_inverted_reverses_the_direction() {
    let b = binding(-500_000, 500_000, true);
    assert_eq!(b.normalize(-500_000), AXIS_SCALE);
    assert_eq!(b.normalize(500_000), -AXIS_SCALE);
    assert_eq!(b.normalize(0), 0);
}

#[test]
fn normalize_is_monotonic_on_sample_points() {
    let b = binding(-400_000, 900_000, false);
    let mut prev = b.normalize(-400_000);
    let mut raw = -400_000;
    while raw <= 900_000 {
        let cur = b.normalize(raw);
        assert!(prev <= cur);
        prev = cur;
        raw += 65_000;
    }
}

#[test]
fn normalize_degenerate_range_is_zero() {
    let b = binding(100, 600, false);
    assert_eq!(b.normalize(100), 0);
    assert_eq!(b.normalize(600), 0);
    assert_eq!(b.normalize(1_000_000), 0);
    assert_eq!(b.normalize_trigger(350), 0);
}

#[test]
fn normalize_trigger_maps_endpoints() {
    let b = binding(0, 800_000, false);
    assert_eq!(b.normalize_trigger(0), 0);
    assert_eq!(b.normalize_trigger(400_000), AXIS_SCALE / 2);
    assert_eq!(b.normalize_trigger(800_000), AXIS_SCALE);
}

#[test]
fn normalize_trigger_inverted_reverses_the_ends() {
    let b = binding(0, 800_000, true);
    assert_eq!(b.normalize_trigger(0), AXIS_SCALE);
    assert_eq!(b.normalize_trigger(800_000), 0);
}

#[test]
fn normalize_trigger_clamps() {
    let b = binding(-200_000, 200_000, false);
    assert_eq!(b.normalize_trigger(500_000), AXIS_SCALE);
    assert_eq!(b.normalize_trigger(-500_000), 0);
}

fn full_config(clutch: bool) -> WheelConfig {
    let axis = |code: u32| AxisBinding {
        device_id: String::from("pad-0"),
        device_name: String::from("Test Wheel"),
        axis_code: code,
        min_value: -500_000,
        max_value: 500_000,
        inverted: false,
    };
    let button = |code: u32| ButtonBinding {
        device_id: String::from("pad-0"),
        device_name: String::from("Test Wheel"),
        button_code: code,
    };
    WheelConfig {
        steering: Some(axis(0)),
        throttle: Some(axis(1)),
        brake: Some(axis(2)),
        clutch: if clutch { Some(axis(3)) } else { None },
        shift_up: Some(button(10)),
        shift_down: Some(button(11)),
        force_feedback_device: None,
    }
}

#[test]
fn completeness_needs_the_five_mandatory_bindings() {
    let mut c = full_config(false);
    assert!(c.is_complete());
    c.steering = None;
    assert!(!c.is_complete());
    c = full_config(false);
    c.throttle = None;
    assert!(!c.is_complete());
    c = full_config(false);
    c.brake = None;
    assert!(!c.is_complete());
    c = full_config(false);
    c.shift_up = None;
    assert!(!c.is_complete());
    c = full_config(false);
    c.shift_down = None;
    assert!(!c.is_complete());
}

#[test]
fn completeness_does_not_need_the_clutch() {
    assert!(full_config(false).is_complete());
    assert!(full_config(true).is_complete());
}

#[test]
fn partially_configured_sees_any_binding() {
    let empty = WheelConfig::default();
    assert!(!empty.is_partially_configured());
    assert!(!empty.is_complete());
    let mut c = WheelConfig::default();
    c.clutch = full_config(true).clutch;
    assert!(c.is_partially_configured());
    assert!(!c.is_complete());
}
