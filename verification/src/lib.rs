//! Input-to-command translation core for a teleoperated quadcopter.
//!
//! Each frame, the control loop samples human input (gamepad axes and
//! buttons, keyboard keys) into an immutable snapshot, detects edges
//! against the previous frame's snapshot, accumulates a command intent
//! scaled by a user-adjustable sensitivity, and plans the commands to
//! dispatch to the vehicle. Telemetry arrives on its own thread and is
//! published wholesale into a relay that the loop reads once per frame.
//!
//! All continuous quantities are fixed-point integers: an axis
//! deflection is a raw value in `[-32767, 32767]` standing for
//! `[-1.0, 1.0]`, sensitivity is a level in `[0, 5]` standing for
//! `{0.0, 0.2, 0.4, 0.6, 0.8, 1.0}`, and a motion command is their
//! product in `[-163835, 163835]` standing for `[-1.0, 1.0]`.

use vstd::prelude::*;

pub mod control;
pub mod dispatch;
pub mod edge;
pub mod input;
pub mod intent;
pub mod relay;
pub mod telemetry;
pub mod translate;

verus! {

/// Full deflection of an analog axis or trigger, standing for 1.0.
pub const AXIS_FULL: i16 = 32767;

/// Number of sensitivity steps; level `l` stands for `l / 5.0`.
pub const SENS_MAX: u8 = 5;

/// Full scale of a motion command, standing for 1.0:
/// a full axis deflection at full sensitivity.
pub const COMMAND_FULL: i32 = 163835;

} // verus!
