//! The force-feedback relay: it re-expresses a recovered rumble command as
//! one continuous constant force on a steering actuator, and decides —
//! state by state — what the platform binding must do with its device and
//! effect handles.
//!
//! Two independent motor intensities collapse onto one directional axis:
//! the large motor pushes positive, the small motor negative, so `force =
//! (large - small)` rescaled to the actuator's full range. The relay owns
//! a single effect whose magnitude is mutated in place; a failed in-place
//! update earns exactly one re-acquire-and-retry before the error
//! surfaces.

use vstd::prelude::*;

use crate::units::AXIS_SCALE;
use crate::units::clamp_i32;
use crate::units::clamp_spec;
use crate::units::scale_signed;
use crate::units::scale_signed_spec;
use crate::virtual_controller::RumbleState;
use vstd::arithmetic::div_mod::lemma_div_multiples_vanish;

verus! {

/// The actuator's full force range: the positive extreme of its signed
/// 16-bit magnitude.
pub const MAX_FORCE: i32 = 32767;

/// The constant-force magnitude a rumble command maps to: motor
/// intensities clamped onto the unit range, their difference — large
/// positive, small negative — rescaled onto the actuator's full range,
/// truncating toward zero.
pub open spec fn force_level_spec(large: int, small: int) -> int {
    let l = clamp_spec(large, 0, AXIS_SCALE as int);
    let s = clamp_spec(small, 0, AXIS_SCALE as int);
    scale_signed_spec(l - s, MAX_FORCE as int, AXIS_SCALE as int)
}

/// The constant-force magnitude for one rumble command.
pub fn constant_force_level(rumble: &RumbleState) -> (level: i16)
    ensures
        level == force_level_spec(rumble.large_motor as int, rumble.small_motor as int),
        -MAX_FORCE <= level <= MAX_FORCE,
{
    let l = clamp_i32(rumble.large_motor, 0, AXIS_SCALE);
    let s = clamp_i32(rumble.small_motor, 0, AXIS_SCALE);
    scale_signed(l - s, 32767, 1_000_000) as i16
}

/// Full rumble on one motor alone drives the actuator to its extreme in
/// that motor's direction, and silence drives it to zero: the
/// anchor points of the difference-as-direction mapping.
pub proof fn lemma_force_level_extremes()
    ensures
        force_level_spec(AXIS_SCALE as int, 0) == MAX_FORCE,
        force_level_spec(0, AXIS_SCALE as int) == -MAX_FORCE,
        force_level_spec(0, 0) == 0,
{
    reveal(scale_signed_spec);
    lemma_div_multiples_vanish(MAX_FORCE as int, AXIS_SCALE as int);
    assert((AXIS_SCALE as int) * (MAX_FORCE as int) / (AXIS_SCALE as int) == MAX_FORCE as int);
    lemma_div_multiples_vanish(0, AXIS_SCALE as int);
    assert(0 * (MAX_FORCE as int) == 0);
}

/// Where the relay stands in its life cycle.
#[derive(Debug, Clone, Copy, PartialEq, Eq, Structural)]
pub enum RelayPhase {
    /// Nothing acquired yet.
    Uninitialized,
    /// Looking for an actuator-capable device.
    Detecting,
    /// A device is acquired (auto-centering off); no effect exists yet.
    Bound,
    /// The effect object exists but playback has not started.
    Idle,
    /// The effect exists and was started once; updates mutate it in place.
    Active,
    /// No actuator-capable device was found; terminal and non-fatal.
    Unavailable,
}

/// What the platform binding must do with its handles for one rumble
/// command.
#[derive(Debug, Clone, Copy, PartialEq, Eq, Structural)]
pub enum RelayAction {
    /// No actuator: ignore the command.
    Nothing,
    /// Create the one constant-force effect at this magnitude.
    CreateEffect { level: i16 },
    /// Mutate the existing effect to this magnitude; `start` asks for the
    /// one playback start after which the effect runs indefinitely.
    UpdateEffect { level: i16, start: bool },
}

/// What to do about a failed in-place effect update.
#[derive(Debug, Clone, Copy, PartialEq, Eq, Structural)]
pub enum RetryDecision {
    /// Re-acquire the device and retry the update, once.
    ReacquireAndRetry,
    /// Report and log the failure; the relay stays as it is and retries
    /// normally on the next command.
    Surface,
}

/// The action one rumble command asks of each phase: create the effect
/// when none exists yet, mutate it in place when it does (starting
/// playback the first time), and nothing at all without an actuator.
pub open spec fn apply_action_spec(phase: RelayPhase, rumble: RumbleState) -> RelayAction {
    let level = force_level_spec(rumble.large_motor as int, rumble.small_motor as int) as i16;
    match phase {
        RelayPhase::Bound => RelayAction::CreateEffect { level },
        RelayPhase::Idle => RelayAction::UpdateEffect { level, start: true },
        RelayPhase::Active => RelayAction::UpdateEffect { level, start: false },
        _ => RelayAction::Nothing,
    }
}

/// Playback stops only from `Active`, and stopping twice lands where
/// stopping once does.
pub open spec fn stop_phase_spec(phase: RelayPhase) -> RelayPhase {
    if phase == RelayPhase::Active {
        RelayPhase::Idle
    } else {
        phase
    }
}

/// Stopping is idempotent: a second stop changes nothing.
pub proof fn lemma_stop_idempotent(phase: RelayPhase)
    ensures
        stop_phase_spec(stop_phase_spec(phase)) == stop_phase_spec(phase),
{
}

/// The relay's decision core: the life-cycle phase and the one-retry
/// budget of the update in flight. The platform binding owns the handles;
/// it reports acquisition results here and carries out the actions the
/// core hands back.
pub struct RelayCore {
    /// Where the relay stands.
    pub phase: RelayPhase,
    /// Whether the update in flight may still be retried once.
    pub retry_armed: bool,
}

impl RelayCore {
    /// Whether an actuator is acquired and usable.
    pub open spec fn available(self) -> bool {
        self.phase == RelayPhase::Bound || self.phase == RelayPhase::Idle || self.phase
            == RelayPhase::Active
    }

    /// A relay with nothing acquired.
    pub fn new() -> (r: Self)
        ensures
            r.phase == RelayPhase::Uninitialized,
            !r.retry_armed,
    {
        RelayCore { phase: RelayPhase::Uninitialized, retry_armed: false }
    }

    /// Begin looking for an actuator-capable device.
    pub fn start_detection(&mut self)
        requires
            old(self).phase == RelayPhase::Uninitialized,
        ensures
            final(self).phase == RelayPhase::Detecting,
            final(self).retry_armed == old(self).retry_armed,
    {
        self.phase = RelayPhase::Detecting;
    }

    /// A device was acquired, exclusively where possible, with its
    /// auto-centering spring disabled.
    pub fn device_found(&mut self)
        requires
            old(self).phase == RelayPhase::Detecting,
        ensures
            final(self).phase == RelayPhase::Bound,
            final(self).retry_armed == old(self).retry_armed,
    {
        self.phase = RelayPhase::Bound;
    }

    /// No actuator-capable device exists: terminal, and non-fatal to the
    /// rest of the system.
    pub fn no_device_found(&mut self)
        requires
            old(self).phase == RelayPhase::Detecting,
        ensures
            final(self).phase == RelayPhase::Unavailable,
            final(self).retry_armed == old(self).retry_armed,
    {
        self.phase = RelayPhase::Unavailable;
    }

    /// The constant-force effect object now exists (not yet playing).
    pub fn effect_created(&mut self)
        requires
            old(self).phase == RelayPhase::Bound,
        ensures
            final(self).phase == RelayPhase::Idle,
            final(self).retry_armed == old(self).retry_armed,
    {
        self.phase = RelayPhase::Idle;
    }

    /// Playback was started; from here updates mutate the running effect.
    pub fn playback_started(&mut self)
        requires
            old(self).phase == RelayPhase::Idle,
        ensures
            final(self).phase == RelayPhase::Active,
            final(self).retry_armed == old(self).retry_armed,
    {
        self.phase = RelayPhase::Active;
    }

    /// Decide what one rumble command asks of the platform binding, and
    /// arm the one-retry budget when an in-place update goes out. The
    /// phase itself only moves when the binding reports back.
    pub fn apply_rumble(&mut self, rumble: &RumbleState) -> (a: RelayAction)
        ensures
            final(self).phase == old(self).phase,
            a == apply_action_spec(old(self).phase, *rumble),
            final(self).retry_armed == (old(self).phase == RelayPhase::Idle || old(self).phase
                == RelayPhase::Active),
    {
        let level = constant_force_level(rumble);
        match self.phase {
            RelayPhase::Bound => {
                self.retry_armed = false;
                RelayAction::CreateEffect { level }
            },
            RelayPhase::Idle => {
                self.retry_armed = true;
                RelayAction::UpdateEffect { level, start: true }
            },
            RelayPhase::Active => {
                self.retry_armed = true;
                RelayAction::UpdateEffect { level, start: false }
            },
            _ => {
                self.retry_armed = false;
                RelayAction::Nothing
            },
        }
    }

    /// Decide what to do about a failed in-place update: exactly one
    /// re-acquire-and-retry per command, then surface. The relay's phase
    /// never changes on failure — it stays `Active` and retries normally
    /// on the next command.
    pub fn on_update_failed(&mut self) -> (d: RetryDecision)
        ensures
            final(self).phase == old(self).phase,
            !final(self).retry_armed,
            d == (if old(self).retry_armed {
                RetryDecision::ReacquireAndRetry
            } else {
                RetryDecision::Surface
            }),
    {
        if self.retry_armed {
            self.retry_armed = false;
            RetryDecision::ReacquireAndRetry
        } else {
            RetryDecision::Surface
        }
    }

    /// Halt playback without destroying the effect object. Idempotent:
    /// stopping an already-stopped relay changes nothing.
    pub fn stop(&mut self)
        ensures
            final(self).phase == stop_phase_spec(old(self).phase),
            final(self).retry_armed == old(self).retry_armed,
    {
        if self.phase == RelayPhase::Active {
            self.phase = RelayPhase::Idle;
        }
    }
}

/// One step of the mandatory teardown order.
#[derive(Debug, Clone, Copy, PartialEq, Eq, Structural)]
pub enum TeardownStep {
    /// Halt effect playback.
    StopEffect,
    /// Unload and erase the effect object.
    EraseEffect,
    /// Release the device handle.
    ReleaseDevice,
    /// Release the driver context.
    ReleaseDriver,
    /// Release any helper resource the platform needed for exclusive
    /// access (for instance a message-only window).
    ReleaseHelper,
}

/// The teardown order the platform binding must follow, exactly: stop the
/// effect, erase it, release the device handle, release the driver
/// context, release the helper resource. Any other order risks leaking
/// driver resources or crashing the driver on its next start.
pub fn teardown_steps() -> (r: Vec<TeardownStep>)
    ensures
        r@ =~= seq![
            TeardownStep::StopEffect,
            TeardownStep::EraseEffect,
            TeardownStep::ReleaseDevice,
            TeardownStep::ReleaseDriver,
            TeardownStep::ReleaseHelper,
        ],
{
    let mut r: Vec<TeardownStep> = Vec::new();
    r.push(TeardownStep::StopEffect);
    r.push(TeardownStep::EraseEffect);
    r.push(TeardownStep::ReleaseDevice);
    r.push(TeardownStep::ReleaseDriver);
    r.push(TeardownStep::ReleaseHelper);
    r
}

} // verus!
