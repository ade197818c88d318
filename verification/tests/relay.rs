//! The force-feedback relay: the difference-as-direction mapping, the
//! life-cycle phases, the single retry and the teardown order.

use rowheel::force_feedback::RelayAction;
use rowheel::force_feedback::RelayCore;
use rowheel::force_feedback::RelayPhase;
use rowheel::force_feedback::RetryDecision;
use rowheel::force_feedback::TeardownStep;
use rowheel::force_feedback::constant_force_level;
use rowheel::force_feedback::teardown_steps;
use rowheel::virtual_controller::RumbleState;

fn rumble(large_motor: i32, small_motor: i32) -> RumbleState {
    RumbleState { large_motor, small_motor }
}

#[test]
fn full_large_motor_is_maximum_positive_force() {
    assert_eq!(constant_force_level(&rumble(1_000_000, 0)), 32767);
}

#[test]
fn full_small_motor_is_maximum_negative_force() {
    assert_eq!(constant_force_level(&rumble(0, 1_000_000)), -32767);
}

#[test]
fn silence_is_zero_force() {
    assert_eq!(constant_force_level(&rumble(0, 0)), 0);
}

#[test]
fn half_rumble_is_half_force() {
    assert_eq!(constant_force_level(&rumble(500_000, 0)), 16383);
    assert_eq!(constant_force_level(&rumble(0, 500_000)), -16383);
}

#[test]
fn opposing_motors_cancel() {
    assert_eq!(constant_force_level(&rumble(700_000, 700_000)), 0);
    assert_eq!(constant_force_level(&rumble(700_000, 200_000)), 16383);
}

#[test]
fn out_of_range_intensities_are_clamped() {
    assert_eq!(constant_force_level(&rumble(5_000_000, 0)), 32767);
    assert_eq!(constant_force_level(&rumble(-400_000, 0)), 0);
}

#[test]
fn the_relay_walks_its_phases() {
    let mut core = RelayCore::new();
    assert_eq!(core.phase, RelayPhase::Uninitialized);
    core.start_detection();
    assert_eq!(core.phase, RelayPhase::Detecting);
    core.device_found();
    assert_eq!(core.phase, RelayPhase::Bound);
    core.effect_created();
    assert_eq!(core.phase, RelayPhase::Idle);
    core.playback_started();
    assert_eq!(core.phase, RelayPhase::Active);
}

#[test]
fn detection_failure_is_terminal_and_silent() {
    let mut core = RelayCore::new();
    core.start_detection();
    core.no_device_found();
    assert_eq!(core.phase, RelayPhase::Unavailable);
    let action = core.apply_rumble(&rumble(1_000_000, 0));
    assert_eq!(action, RelayAction::Nothing);
}

#[test]
fn a_bound_relay_first_creates_its_effect() {
    let mut core = RelayCore::new();
    core.start_detection();
    core.device_found();
    let action = core.apply_rumble(&rumble(1_000_000, 0));
    assert_eq!(action, RelayAction::CreateEffect { level: 32767 });
}

#[test]
fn the_first_update_starts_playback_then_mutates_in_place() {
    let mut core = RelayCore::new();
    core.start_detection();
    core.device_found();
    core.effect_created();
    let action = core.apply_rumble(&rumble(500_000, 0));
    assert_eq!(action, RelayAction::UpdateEffect { level: 16383, start: true });
    core.playback_started();
    let action = core.apply_rumble(&rumble(0, 500_000));
    assert_eq!(action, RelayAction::UpdateEffect { level: -16383, start: false });
}

#[test]
fn a_failed_update_earns_exactly_one_retry() {
    let mut core = RelayCore::new();
    core.start_detection();
    core.device_found();
    core.effect_created();
    core.playback_started();
    core.apply_rumble(&rumble(1_000_000, 0));
    assert_eq!(core.on_update_failed(), RetryDecision::ReacquireAndRetry);
    assert_eq!(core.on_update_failed(), RetryDecision::Surface);
    assert_eq!(core.phase, RelayPhase::Active);
    // The next command arms the retry again.
    core.apply_rumble(&rumble(1_000_000, 0));
    assert_eq!(core.on_update_failed(), RetryDecision::ReacquireAndRetry);
}

#[test]
fn stop_halts_playback_and_is_idempotent() {
    let mut core = RelayCore::new();
    core.start_detection();
    core.device_found();
    core.effect_created();
    core.playback_started();
    core.stop();
    assert_eq!(core.phase, RelayPhase::Idle);
    core.stop();
    assert_eq!(core.phase, RelayPhase::Idle);
    let mut fresh = RelayCore::new();
    fresh.stop();
    assert_eq!(fresh.phase, RelayPhase::Uninitialized);
}

#[test]
fn teardown_runs_in_the_mandatory_order() {
    let steps = teardown_steps();
    assert_eq!(
        steps,
        vec![
            TeardownStep::StopEffect,
            TeardownStep::EraseEffect,
            TeardownStep::ReleaseDevice,
            TeardownStep::ReleaseDriver,
            TeardownStep::ReleaseHelper,
        ],
    );
}
