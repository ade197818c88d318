//! The input snapshot and the per-frame mapping onto gamepad state.

use rowheel::config::AxisBinding;
use rowheel::config::ButtonBinding;
use rowheel::config::WheelConfig;
use rowheel::input::AxisSample;
use rowheel::input::ButtonSample;
use rowheel::input::InputState;
use rowheel::input::raw_to_unit;
use rowheel::mapping::AppMode;
use rowheel::mapping::map_frame;
use rowheel::mapping::select_mode;

fn axis_sample(device_id: &str, axis_code: u32, value: i32) -> AxisSample {
    AxisSample { device_id: String::from(device_id), axis_code, value }
}

fn button_sample(device_id: &str, button_code: u32, pressed: bool) -> ButtonSample {
    ButtonSample { device_id: String::from(device_id), button_code, pressed }
}

fn wheel_binding(device_id: &str, axis_code: u32) -> AxisBinding {
    AxisBinding {
        device_id: String::from(device_id),
        device_name: String::from("Test Wheel"),
        axis_code,
        min_value: -1_000_000,
        max_value: 1_000_000,
        inverted: false,
    }
}

#[test]
fn the_snapshot_answers_by_device_and_code() {
    let mut state = InputState::new();
    let pad = String::from("pad-0");
    let other = String::from("pad-1");
    assert_eq!(state.get_axis(&pad, 0), None);
    state.set_axis(axis_sample("pad-0", 0, 250_000));
    state.set_axis(axis_sample("pad-1", 0, -250_000));
    assert_eq!(state.get_axis(&pad, 0), Some(250_000));
    assert_eq!(state.get_axis(&other, 0), Some(-250_000));
    assert_eq!(state.get_axis(&pad, 1), None);
    state.set_axis(axis_sample("pad-0", 0, 400_000));
    assert_eq!(state.get_axis(&pad, 0), Some(400_000));
}

#[test]
fn the_snapshot_tracks_buttons_separately() {
    let mut state = InputState::new();
    let pad = String::from("pad-0");
    assert_eq!(state.get_button(&pad, 3), None);
    state.set_button(button_sample("pad-0", 3, true));
    assert_eq!(state.get_button(&pad, 3), Some(true));
    state.set_button(button_sample("pad-0", 3, false));
    assert_eq!(state.get_button(&pad, 3), Some(false));
    assert_eq!(state.get_axis(&pad, 3), None);
}

#[test]
fn raw_readings_land_on_the_unit_range() {
    assert_eq!(raw_to_unit(0, 0, 1000), -1_000_000);
    assert_eq!(raw_to_unit(500, 0, 1000), 0);
    assert_eq!(raw_to_unit(1000, 0, 1000), 1_000_000);
    assert_eq!(raw_to_unit(2000, 0, 1000), 1_000_000);
    assert_eq!(raw_to_unit(-32768, -32768, 32767), -1_000_000);
    assert_eq!(raw_to_unit(0, -32768, 32767), 15);
}

#[test]
fn map_frame_routes_each_control_to_its_output() {
    let mut config = WheelConfig::default();
    config.steering = Some(wheel_binding("pad-0", 0));
    config.clutch = Some(wheel_binding("pad-0", 1));
    config.throttle = Some(AxisBinding { min_value: 0, ..wheel_binding("pad-0", 2) });
    config.brake = Some(AxisBinding { min_value: 0, ..wheel_binding("pad-0", 3) });
    config.shift_up = Some(ButtonBinding {
        device_id: String::from("pad-0"),
        device_name: String::from("Test Wheel"),
        button_code: 10,
    });
    config.shift_down = Some(ButtonBinding {
        device_id: String::from("pad-0"),
        device_name: String::from("Test Wheel"),
        button_code: 11,
    });

    let mut state = InputState::new();
    state.set_axis(axis_sample("pad-0", 0, 600_000));
    state.set_axis(axis_sample("pad-0", 1, -300_000));
    state.set_axis(axis_sample("pad-0", 2, 500_000));
    state.set_axis(axis_sample("pad-0", 3, 1_000_000));
    state.set_button(button_sample("pad-0", 10, true));
    state.set_button(button_sample("pad-0", 11, false));

    let frame = map_frame(&config, &state);
    assert_eq!(frame.left_stick_x, 600_000);
    assert_eq!(frame.left_stick_y, -300_000);
    assert_eq!(frame.right_trigger, 500_000);
    assert_eq!(frame.left_trigger, 1_000_000);
    assert!(frame.buttons.y);
    assert!(!frame.buttons.x);
    assert_eq!(frame.right_stick_x, 0);
    assert_eq!(frame.right_stick_y, 0);
    assert!(!frame.buttons.a);
}

#[test]
fn unbound_or_unseen_controls_stay_neutral() {
    let mut config = WheelConfig::default();
    config.steering = Some(wheel_binding("pad-0", 0));
    let state = InputState::new();
    let frame = map_frame(&config, &state);
    assert_eq!(frame.left_stick_x, 0);
    assert_eq!(frame.left_trigger, 0);
    assert!(!frame.buttons.y);
}

#[test]
fn an_inverted_steering_binding_flips_the_stick() {
    let mut config = WheelConfig::default();
    let mut binding = wheel_binding("pad-0", 0);
    binding.inverted = true;
    config.steering = Some(binding);
    let mut state = InputState::new();
    state.set_axis(axis_sample("pad-0", 0, 600_000));
    let frame = map_frame(&config, &state);
    assert_eq!(frame.left_stick_x, -600_000);
}

#[test]
fn startup_mode_follows_profile_completeness() {
    assert_eq!(select_mode(&None), AppMode::Calibrating);
    assert_eq!(select_mode(&Some(WheelConfig::default())), AppMode::Calibrating);
    let mut config = WheelConfig::default();
    config.steering = Some(wheel_binding("pad-0", 0));
    config.throttle = Some(wheel_binding("pad-0", 1));
    config.brake = Some(wheel_binding("pad-0", 2));
    config.shift_up = Some(ButtonBinding {
        device_id: String::from("pad-0"),
        device_name: String::from("Test Wheel"),
        button_code: 10,
    });
    assert_eq!(select_mode(&Some(config.clone())), AppMode::Calibrating);
    config.shift_down = Some(ButtonBinding {
        device_id: String::from("pad-0"),
        device_name: String::from("Test Wheel"),
        button_code: 11,
    });
    assert_eq!(select_mode(&Some(config)), AppMode::Running);
}
