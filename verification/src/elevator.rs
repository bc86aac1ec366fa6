//! The linear elevator: two motors, the right one mechanically mirroring
//! the left, driven to the height the current target asks for. Heights are
//! already in native units, so no gear conversion is involved.

use vstd::prelude::*;

use crate::constants::ELEVATOR_ERROR_THRESHOLD_MILLI;
use crate::MotorCommand;
use crate::Target;

verus! {

/// State of the elevator controller: its current target and the command
/// last issued to the primary motor (the follower mirrors it in hardware).
pub struct Elevator {
    pub target_state: Target,
    pub command: MotorCommand,
}

impl Elevator {
    /// The native setpoint, in milli-units of travel, the current target
    /// asks for.
    pub open spec fn spec_native_target(&self) -> int {
        self.target_state.spec_target_elevator() as int
    }

    /// Readiness: the measured height is strictly within the fixed
    /// tolerance of the commanded setpoint. Exactly at the tolerance is
    /// not at target.
    pub open spec fn spec_at_target(&self, measured_milli: i64) -> bool {
        let error = self.spec_native_target() - measured_milli;
        (if error < 0 {
            -error
        } else {
            error
        }) < ELEVATOR_ERROR_THRESHOLD_MILLI
    }

    /// This elevator with zero output commanded and nothing else changed.
    pub open spec fn spec_stopped(&self) -> Elevator {
        Elevator { command: MotorCommand::Stop, ..*self }
    }

    /// This elevator retargeted and nothing else changed.
    pub open spec fn spec_with_target(&self, target_state: Target) -> Elevator {
        Elevator { target_state, ..*self }
    }

    /// This elevator after issuing the position command for its target.
    pub open spec fn spec_ran(&self) -> Elevator {
        Elevator { command: MotorCommand::Position(self.spec_native_target() as i64), ..*self }
    }

    /// Build an elevator controller targeting `Stow`, with nothing
    /// commanded yet.
    pub fn new() -> (r: Elevator)
        ensures
            r == (Elevator { target_state: Target::Stow, command: MotorCommand::Hold }),
    {
        Elevator { target_state: Target::Stow, command: MotorCommand::Hold }
    }

    /// Store the target; no actuator traffic, total, never fails.
    pub fn set_target(&mut self, target_state: Target)
        ensures
            final(self).target_state == target_state,
            final(self).command == old(self).command,
    {
        self.target_state = target_state;
    }

    /// Issue the position command for the current target to the primary
    /// motor; the follower mirrors it.
    pub fn run_to_state(&mut self)
        ensures
            final(self).command == MotorCommand::Position(old(self).spec_native_target() as i64),
            final(self).target_state == old(self).target_state,
    {
        let target_native: i64 = self.target_state.get_target_elevator();
        self.command = MotorCommand::Position(target_native);
    }

    /// Readiness against a measured primary-motor position.
    pub fn at_target(&self, measured_milli: i64) -> (r: bool)
        ensures
            r == self.spec_at_target(measured_milli),
    {
        let target_native: i64 = self.target_state.get_target_elevator();
        let error: i128 = (target_native as i128) - (measured_milli as i128);
        let magnitude: i128 = if error < 0 {
            -error
        } else {
            error
        };
        magnitude < ELEVATOR_ERROR_THRESHOLD_MILLI as i128
    }

    /// Command zero output; safe at any time, never fails, idempotent.
    pub fn stop(&mut self)
        ensures
            *final(self) == old(self).spec_stopped(),
    {
        self.command = MotorCommand::Stop;
    }
}

} // verus!
