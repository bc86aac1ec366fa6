//! Named numeric configuration for the superstructure.
//!
//! Positions are measured in thousandths of a native actuator unit
//! (milli-rotations for the pivot and the intake arm, milli-units of
//! travel for the elevator); angles are measured in millidegrees.

use vstd::prelude::*;

verus! {

// CAN bus ids of the actuators and the range sensor.
pub const PIVOT_LEFT_ID: i32 = 0;
pub const PIVOT_RIGHT_ID: i32 = 1;
pub const ELEVATOR_LEFT_ID: i32 = 2;
pub const ELEVATOR_RIGHT_ID: i32 = 3;
pub const ARM_ID: i32 = 4;
pub const INTAKE_ID: i32 = 5;
pub const LASER_CAN_ID: i32 = 6;

// Driver-station ports of the input devices.
pub const RIGHT_DRIVE_PORT: i32 = 0;
pub const LEFT_DRIVE_PORT: i32 = 1;
pub const OPERATOR_PORT: i32 = 2;

// Pivot poses, in millidegrees.
pub const PIVOT_STOW_MILLIDEG: i64 = 90_000;
pub const PIVOT_SCORE_MILLIDEG: i64 = 45_000;
pub const PIVOT_INTAKE_MILLIDEG: i64 = 0;
/// Pivot readiness tolerance, in milli-units (0.5 native units), exclusive.
pub const PIVOT_ERROR_THRESHOLD_MILLI: i64 = 500;

// Elevator heights, in milli-units of travel. These are placeholder
// values awaiting measurement on the physical mechanism.
pub const ELEVATOR_STOW_MILLI: i64 = 0;
pub const ELEVATOR_LOW_MILLI: i64 = 0;
pub const ELEVATOR_GROUND_MILLI: i64 = 0;
pub const ELEVATOR_MID_MILLI: i64 = 0;
pub const ELEVATOR_HIGH_MILLI: i64 = 0;
/// Elevator readiness tolerance, in milli-units, exclusive.
pub const ELEVATOR_ERROR_THRESHOLD_MILLI: i64 = 500;

// Intake-arm poses, in millidegrees.
pub const ARM_INTAKE_MILLIDEG: i64 = 1_000;
pub const ARM_STOW_MILLIDEG: i64 = 2_000;
pub const ARM_SCORE_MILLIDEG: i64 = 3_000;
/// Intake-arm readiness tolerance, in milli-units, exclusive.
pub const ARM_ERROR_THRESHOLD_MILLI: i64 = 500;

// Roller duty cycles, in thousandths of full output. Placeholders
// awaiting tuning on the physical mechanism.
pub const INTAKE_SPEED_MILLI: i64 = 0;
pub const OUTTAKE_SPEED_MILLI: i64 = 0;

/// A range reading strictly below this many millimeters counts as a trip.
pub const INTAKE_TRIP_DISTANCE_MM: i32 = 10;
/// The range sensor reports this value when it has no reading.
pub const NO_READING_MM: i32 = -1;
/// Minimum time between two accepted trips, in milliseconds.
pub const DEBOUNCE_DURATION_MS: u64 = 200;

/// Millidegrees in one full mechanism revolution.
pub const MILLIDEG_PER_REV: i64 = 360_000;
/// Largest accepted gear ratio, in thousandths (a 1000:1 reduction).
pub const MAX_GEAR_RATIO_MILLI: i64 = 1_000_000;

/// An analog trigger held past this many thousandths counts as pressed.
pub const TRIGGER_THRESHOLD_MILLI: i64 = 500;

/// Target period of the control loop, in microseconds (250 Hz).
pub const LOOP_PERIOD_MICROS: u64 = 4_000;
/// The watchdog wakes this often, in milliseconds.
pub const WATCHDOG_INTERVAL_MS: u64 = 20;
/// Loop-tick age past which the watchdog forces a stop, in milliseconds.
pub const OVERRUN_THRESHOLD_MS: u64 = 150;

} // verus!
