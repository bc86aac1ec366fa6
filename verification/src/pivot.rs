//! The rotating pivot: two motors, the right one mechanically mirroring the
//! left, driven to the pose the current target asks for.

use vstd::prelude::*;

use crate::constants::MAX_GEAR_RATIO_MILLI;
use crate::constants::MILLIDEG_PER_REV;
use crate::constants::PIVOT_ERROR_THRESHOLD_MILLI;
use crate::units::millideg_to_native;
use crate::units::native_to_millideg;
use crate::units::spec_millideg_to_native;
use crate::units::spec_native_to_millideg;
use crate::units::valid_gear_ratio;
use crate::units::MAX_NATIVE_READING_MILLI;
use crate::ConfigError;
use crate::MotorCommand;
use crate::Target;

verus! {

/// State of the pivot controller: its current target, the gear reduction
/// between motor and mechanism, and the command last issued to the primary
/// motor (the follower mirrors it in hardware).
pub struct Pivot {
    pub target_state: Target,
    pub gear_ratio_milli: i64,
    pub command: MotorCommand,
}

impl Pivot {
    /// The gear ratio stays inside the range the conversions support.
    pub open spec fn wf(&self) -> bool {
        valid_gear_ratio(self.gear_ratio_milli)
    }

    /// The native setpoint, in milli-rotations, the current target asks for.
    pub open spec fn spec_native_target(&self) -> int {
        spec_millideg_to_native(self.target_state.spec_target_pivot(), self.gear_ratio_milli)
    }

    /// Readiness: the measured position is strictly within the fixed
    /// tolerance of the commanded setpoint. Exactly at the tolerance is
    /// not at target.
    pub open spec fn spec_at_target(&self, measured_milli: i64) -> bool {
        let error = self.spec_native_target() - measured_milli;
        (if error < 0 {
            -error
        } else {
            error
        }) < PIVOT_ERROR_THRESHOLD_MILLI
    }

    /// This pivot with zero output commanded and nothing else changed.
    pub open spec fn spec_stopped(&self) -> Pivot {
        Pivot { command: MotorCommand::Stop, ..*self }
    }

    /// This pivot retargeted and nothing else changed.
    pub open spec fn spec_with_target(&self, target_state: Target) -> Pivot {
        Pivot { target_state, ..*self }
    }

    /// This pivot after issuing the position command for its target.
    pub open spec fn spec_ran(&self) -> Pivot {
        Pivot { command: MotorCommand::Position(self.spec_native_target() as i64), ..*self }
    }

    /// Build a pivot controller targeting `Stow`, with nothing commanded
    /// yet. A gear ratio outside the supported range — zero above all —
    /// is refused.
    pub fn new(gear_ratio_milli: i64) -> (r: Result<Pivot, ConfigError>)
        ensures
            r is Ok <==> valid_gear_ratio(gear_ratio_milli),
            r is Ok ==> r->Ok_0 == (Pivot {
                target_state: Target::Stow,
                gear_ratio_milli,
                command: MotorCommand::Hold,
            }),
            r is Err ==> r->Err_0 == ConfigError::InvalidGearRatio,
    {
        if 1 <= gear_ratio_milli && gear_ratio_milli <= MAX_GEAR_RATIO_MILLI {
            Ok(Pivot { target_state: Target::Stow, gear_ratio_milli, command: MotorCommand::Hold })
        } else {
            Err(ConfigError::InvalidGearRatio)
        }
    }

    /// Store the target; no actuator traffic, total, never fails.
    pub fn set_target(&mut self, target_state: Target)
        ensures
            final(self).target_state == target_state,
            final(self).gear_ratio_milli == old(self).gear_ratio_milli,
            final(self).command == old(self).command,
    {
        self.target_state = target_state;
    }

    /// Issue the position command for the current target to the primary
    /// motor; the follower mirrors it.
    pub fn run_to_state(&mut self)
        requires
            old(self).wf(),
        ensures
            final(self).command == MotorCommand::Position(old(self).spec_native_target() as i64),
            final(self).target_state == old(self).target_state,
            final(self).gear_ratio_milli == old(self).gear_ratio_milli,
    {
        let target_native: i64 = millideg_to_native(
            self.target_state.get_target_pivot(),
            self.gear_ratio_milli,
        );
        self.command = MotorCommand::Position(target_native);
    }

    /// Readiness against a measured primary-motor position.
    pub fn at_target(&self, measured_milli: i64) -> (r: bool)
        requires
            self.wf(),
        ensures
            r == self.spec_at_target(measured_milli),
    {
        let target_native: i64 = millideg_to_native(
            self.target_state.get_target_pivot(),
            self.gear_ratio_milli,
        );
        let error: i128 = (target_native as i128) - (measured_milli as i128);
        let magnitude: i128 = if error < 0 {
            -error
        } else {
            error
        };
        magnitude < PIVOT_ERROR_THRESHOLD_MILLI as i128
    }

    /// The mechanism angle, in millidegrees, a measured motor position
    /// stands for.
    pub fn get_angle(&self, measured_milli: i64) -> (r: i64)
        requires
            self.wf(),
            -MAX_NATIVE_READING_MILLI <= measured_milli <= MAX_NATIVE_READING_MILLI,
        ensures
            r == spec_native_to_millideg(measured_milli, self.gear_ratio_milli),
    {
        native_to_millideg(measured_milli, self.gear_ratio_milli)
    }

    /// Command zero output; safe at any time, never fails, idempotent.
    pub fn stop(&mut self)
        ensures
            *final(self) == old(self).spec_stopped(),
    {
        self.command = MotorCommand::Stop;
    }
}

} // verus!
