//! A wheel-and-pedals rig presented to games as a standard gamepad.
//!
//! The crate covers the logic of that translation: calibration of raw axis
//! ranges into a normalized, sign-corrected control surface; encoding of the
//! normalized state into the records a virtual gamepad device consumes; and
//! recovery of rumble commands from the device's force-effect protocol,
//! re-expressed as a single constant force on a steering actuator.
//!
//! All values on the control surface are fixed-point: `units::AXIS_SCALE`
//! stands for full deflection (1.0). Device I/O itself lives outside this
//! crate; callers hand in plain values and receive plain values back.

pub mod units;
pub mod config;
pub mod input;
pub mod calibration;
pub mod virtual_controller;
pub mod uinput;
pub mod force_feedback;
pub mod mapping;
pub mod directinput;
