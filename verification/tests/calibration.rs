//! The calibration wizard: step order, movement threshold, auto-inversion
//! and skipping.

use rowheel::calibration::CalibrationStep;
use rowheel::calibration::CalibrationWizard;
use rowheel::input::InputEvent;

fn axis_event(axis_code: u32, value: i32) -> InputEvent {
    InputEvent::AxisMoved {
        device_id: String::from("pad-0"),
        device_name: String::from("Test Wheel"),
        axis_code,
        value,
    }
}

fn button_event(button_code: u32) -> InputEvent {
    InputEvent::ButtonPressed {
        device_id: String::from("pad-0"),
        device_name: String::from("Test Wheel"),
        button_code,
    }
}

#[test]
fn steps_run_in_the_fixed_order() {
    let order = [
        CalibrationStep::Welcome,
        CalibrationStep::SteeringLeft,
        CalibrationStep::SteeringRight,
        CalibrationStep::ThrottlePressed,
        CalibrationStep::ThrottleReleased,
        CalibrationStep::BrakePressed,
        CalibrationStep::BrakeReleased,
        CalibrationStep::ClutchPressed,
        CalibrationStep::ClutchReleased,
        CalibrationStep::ShiftUp,
        CalibrationStep::ShiftDown,
        CalibrationStep::Complete,
    ];
    for pair in order.windows(2) {
        assert_eq!(pair[0].next(), pair[1]);
    }
    assert_eq!(CalibrationStep::Complete.next(), CalibrationStep::Complete);
}

#[test]
fn only_the_clutch_steps_can_be_skipped() {
    assert!(CalibrationStep::ClutchPressed.can_skip());
    assert!(CalibrationStep::ClutchReleased.can_skip());
    assert!(!CalibrationStep::Welcome.can_skip());
    assert!(!CalibrationStep::SteeringLeft.can_skip());
    assert!(!CalibrationStep::ShiftUp.can_skip());
    assert!(!CalibrationStep::Complete.can_skip());
}

#[test]
fn every_step_has_instruction_text() {
    let mut step = CalibrationStep::Welcome;
    loop {
        assert!(!step.instructions().is_empty());
        if step == CalibrationStep::Complete {
            break;
        }
        step = step.next();
    }
}

#[test]
fn reversed_steering_capture_is_swapped_and_inverted() {
    let mut w = CalibrationWizard::new(None);
    w.advance();
    assert_eq!(w.step, CalibrationStep::SteeringLeft);

    w.process_event(&axis_event(0, 0));
    w.process_event(&axis_event(0, 800_000));
    w.advance();
    assert_eq!(w.step, CalibrationStep::SteeringRight);
    let first = w.config.steering.as_ref().unwrap();
    assert_eq!(first.min_value, 800_000);
    assert_eq!(first.max_value, 800_000);
    assert!(!first.inverted);

    w.process_event(&axis_event(0, 800_000));
    w.process_event(&axis_event(0, 200_000));
    w.advance();
    let steering = w.config.steering.as_ref().unwrap();
    assert!(steering.inverted);
    assert_eq!(steering.min_value, 200_000);
    assert_eq!(steering.max_value, 800_000);
}

#[test]
fn forward_steering_capture_stays_upright() {
    let mut w = CalibrationWizard::new(None);
    w.advance();
    w.process_event(&axis_event(0, 0));
    w.process_event(&axis_event(0, -700_000));
    w.advance();
    w.process_event(&axis_event(0, -700_000));
    w.process_event(&axis_event(0, 700_000));
    w.advance();
    let steering = w.config.steering.as_ref().unwrap();
    assert!(!steering.inverted);
    assert_eq!(steering.min_value, -700_000);
    assert_eq!(steering.max_value, 700_000);
}

#[test]
fn advance_commits_nothing_without_movement() {
    let mut w = CalibrationWizard::new(None);
    w.advance();
    assert_eq!(w.step, CalibrationStep::SteeringLeft);
    // One event alone sets baseline and latest to the same value.
    w.process_event(&axis_event(0, 650_000));
    w.advance();
    assert!(w.config.steering.is_none());
    assert_eq!(w.step, CalibrationStep::SteeringRight);
}

#[test]
fn advance_ignores_movement_at_or_below_the_threshold() {
    let mut w = CalibrationWizard::new(None);
    w.advance();
    w.process_event(&axis_event(0, 0));
    w.process_event(&axis_event(0, 100_000));
    w.advance();
    assert!(w.config.steering.is_none());
}

#[test]
fn the_most_moved_axis_wins() {
    let mut w = CalibrationWizard::new(None);
    w.advance();
    w.process_event(&axis_event(0, 0));
    w.process_event(&axis_event(1, 0));
    w.process_event(&axis_event(0, 300_000));
    w.process_event(&axis_event(1, 900_000));
    w.advance();
    let steering = w.config.steering.as_ref().unwrap();
    assert_eq!(steering.axis_code, 1);
    assert_eq!(steering.max_value, 900_000);
}

#[test]
fn pedal_capture_orders_press_then_release() {
    let mut w = CalibrationWizard::new(None);
    w.step = CalibrationStep::ThrottlePressed;
    w.process_event(&axis_event(2, 0));
    w.process_event(&axis_event(2, 950_000));
    w.advance();
    assert_eq!(w.step, CalibrationStep::ThrottleReleased);
    w.process_event(&axis_event(2, 950_000));
    w.process_event(&axis_event(2, -50_000));
    w.advance();
    let throttle = w.config.throttle.as_ref().unwrap();
    assert!(!throttle.inverted);
    assert_eq!(throttle.min_value, -50_000);
    assert_eq!(throttle.max_value, 950_000);
}

#[test]
fn reversed_pedal_capture_is_swapped_and_inverted() {
    let mut w = CalibrationWizard::new(None);
    w.step = CalibrationStep::BrakePressed;
    w.process_event(&axis_event(3, 0));
    w.process_event(&axis_event(3, -900_000));
    w.advance();
    w.process_event(&axis_event(3, -900_000));
    w.process_event(&axis_event(3, 100_000));
    w.advance();
    let brake = w.config.brake.as_ref().unwrap();
    assert!(brake.inverted);
    assert_eq!(brake.min_value, -900_000);
    assert_eq!(brake.max_value, 100_000);
}

#[test]
fn skip_on_clutch_pressed_jumps_to_shift_up() {
    let mut w = CalibrationWizard::new(None);
    w.step = CalibrationStep::ClutchPressed;
    w.process_event(&axis_event(4, 0));
    w.process_event(&axis_event(4, 800_000));
    w.skip();
    assert_eq!(w.step, CalibrationStep::ShiftUp);
    assert!(w.config.clutch.is_none());
}

#[test]
fn skip_on_clutch_released_jumps_to_shift_up() {
    let mut w = CalibrationWizard::new(None);
    w.step = CalibrationStep::ClutchReleased;
    w.skip();
    assert_eq!(w.step, CalibrationStep::ShiftUp);
}

#[test]
fn button_steps_commit_the_latest_press() {
    let mut w = CalibrationWizard::new(None);
    w.step = CalibrationStep::ShiftUp;
    w.process_event(&button_event(7));
    w.process_event(&button_event(9));
    w.advance();
    assert_eq!(w.step, CalibrationStep::ShiftDown);
    assert_eq!(w.config.shift_up.as_ref().unwrap().button_code, 9);
    w.process_event(&button_event(3));
    w.advance();
    assert_eq!(w.step, CalibrationStep::Complete);
    assert_eq!(w.config.shift_down.as_ref().unwrap().button_code, 3);
}

#[test]
fn button_step_without_a_press_commits_nothing() {
    let mut w = CalibrationWizard::new(None);
    w.step = CalibrationStep::ShiftUp;
    w.advance();
    assert!(w.config.shift_up.is_none());
}

#[test]
fn a_full_run_without_a_clutch_completes() {
    let mut w = CalibrationWizard::new(None);
    w.advance();
    w.process_event(&axis_event(0, 0));
    w.process_event(&axis_event(0, -800_000));
    w.advance();
    w.process_event(&axis_event(0, -800_000));
    w.process_event(&axis_event(0, 800_000));
    w.advance();
    w.process_event(&axis_event(1, 0));
    w.process_event(&axis_event(1, 900_000));
    w.advance();
    w.process_event(&axis_event(1, 900_000));
    w.process_event(&axis_event(1, 0));
    w.advance();
    w.process_event(&axis_event(2, 0));
    w.process_event(&axis_event(2, 900_000));
    w.advance();
    w.process_event(&axis_event(2, 900_000));
    w.process_event(&axis_event(2, 0));
    w.advance();
    assert_eq!(w.step, CalibrationStep::ClutchPressed);
    w.skip();
    w.process_event(&button_event(4));
    w.advance();
    w.process_event(&button_event(5));
    w.advance();
    assert_eq!(w.step, CalibrationStep::Complete);
    assert!(w.config.is_complete());
    assert!(w.config.clutch.is_none());
    // Complete is terminal and re-entrant.
    w.advance();
    assert_eq!(w.step, CalibrationStep::Complete);
}

#[test]
fn detection_queries_follow_the_step() {
    let mut w = CalibrationWizard::new(None);
    assert!(!w.needs_axis_detection());
    assert!(!w.needs_button_detection());
    w.step = CalibrationStep::BrakePressed;
    assert!(w.needs_axis_detection());
    assert!(!w.needs_button_detection());
    w.step = CalibrationStep::ShiftDown;
    assert!(!w.needs_axis_detection());
    assert!(w.needs_button_detection());
}

#[test]
fn detected_axis_info_names_the_most_moved_axis() {
    let mut w = CalibrationWizard::new(None);
    w.step = CalibrationStep::SteeringLeft;
    assert!(w.get_detected_axis_info().is_none());
    w.process_event(&axis_event(6, 100_000));
    w.process_event(&axis_event(6, 500_000));
    let (name, code, movement) = w.get_detected_axis_info().unwrap();
    assert_eq!(name, "Test Wheel");
    assert_eq!(code, 6);
    assert_eq!(movement, 400_000);
}

#[test]
fn detected_button_info_names_the_latest_press() {
    let mut w = CalibrationWizard::new(None);
    w.step = CalibrationStep::ShiftUp;
    assert!(w.get_detected_button_info().is_none());
    w.process_event(&button_event(12));
    let (name, code) = w.get_detected_button_info().unwrap();
    assert_eq!(name, "Test Wheel");
    assert_eq!(code, 12);
}

#[test]
fn recalibration_starts_from_the_existing_profile() {
    let mut w = CalibrationWizard::new(None);
    w.step = CalibrationStep::ShiftUp;
    w.process_event(&button_event(9));
    w.advance();
    let config = w.config;
    let w2 = CalibrationWizard::new(Some(config));
    assert_eq!(w2.step, CalibrationStep::Welcome);
    assert_eq!(w2.config.shift_up.as_ref().unwrap().button_code, 9);
}
