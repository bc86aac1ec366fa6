//! Control logic for a small superstructure: a rotating pivot, a linear
//! elevator and an intake arm, driven toward coordinated setpoints on a
//! fixed-cadence loop under an independent watchdog.
//!
//! Positions are plain integers in thousandths of a native actuator unit;
//! angles are millidegrees; times are milliseconds or microseconds. The
//! hardware drivers, input devices and the scheduler itself live outside
//! this crate and exchange plain values with it.

use vstd::prelude::*;

pub mod constants;
pub mod units;
pub mod pivot;
pub mod elevator;
pub mod intake;
pub mod control;
pub mod watchdog;

use crate::constants::ARM_INTAKE_MILLIDEG;
use crate::constants::ARM_SCORE_MILLIDEG;
use crate::constants::ARM_STOW_MILLIDEG;
use crate::constants::ELEVATOR_GROUND_MILLI;
use crate::constants::ELEVATOR_HIGH_MILLI;
use crate::constants::ELEVATOR_LOW_MILLI;
use crate::constants::ELEVATOR_MID_MILLI;
use crate::constants::ELEVATOR_STOW_MILLI;
use crate::constants::PIVOT_INTAKE_MILLIDEG;
use crate::constants::PIVOT_SCORE_MILLIDEG;
use crate::constants::PIVOT_STOW_MILLIDEG;
use crate::elevator::Elevator;
use crate::intake::Intake;
use crate::pivot::Pivot;
use crate::units::valid_gear_ratio;

verus! {

/// The command most recently issued to one actuator. The drivers hold a
/// command until the next one arrives, so a tick that issues nothing leaves
/// the actuator on its previous command.
#[derive(Clone, Copy, PartialEq, Eq, Structural, Debug)]
pub enum MotorCommand {
    /// Nothing commanded yet; the actuator keeps whatever it was doing.
    Hold,
    /// A closed-loop position setpoint, in native milli-units.
    Position(i64),
    /// An open-loop duty cycle, in thousandths of full output.
    Percent(i64),
    /// Zero output on the actuator.
    Stop,
}

/// A configuration value rejected at start-up.
#[derive(Clone, Copy, PartialEq, Eq, Structural, Debug)]
pub enum ConfigError {
    /// A gear ratio that is zero, negative or beyond the supported range;
    /// zero in particular would make every angle conversion degenerate.
    InvalidGearRatio,
}

/// A coordinated setpoint for the whole superstructure. Each value maps
/// deterministically to one pose per mechanism; transitions are commanded
/// from outside, so any value may follow any other.
#[derive(Clone, Copy, PartialEq, Eq, Structural, Debug)]
pub enum Target {
    Low,
    Mid,
    High,
    Intake,
    Stow,
}

impl Target {
    /// The pivot pose this target asks for, in millidegrees.
    pub open spec fn spec_target_pivot(self) -> i64 {
        match self {
            Target::Stow => PIVOT_STOW_MILLIDEG,
            Target::Low => PIVOT_SCORE_MILLIDEG,
            Target::Mid => PIVOT_SCORE_MILLIDEG,
            Target::High => PIVOT_SCORE_MILLIDEG,
            Target::Intake => PIVOT_INTAKE_MILLIDEG,
        }
    }

    /// The intake-arm pose this target asks for, in millidegrees.
    pub open spec fn spec_target_arm(self) -> i64 {
        match self {
            Target::Stow => ARM_STOW_MILLIDEG,
            Target::Low => ARM_SCORE_MILLIDEG,
            Target::Mid => ARM_SCORE_MILLIDEG,
            Target::High => ARM_SCORE_MILLIDEG,
            Target::Intake => ARM_INTAKE_MILLIDEG,
        }
    }

    /// The elevator height this target asks for, in milli-units.
    pub open spec fn spec_target_elevator(self) -> i64 {
        match self {
            Target::Stow => ELEVATOR_STOW_MILLI,
            Target::Low => ELEVATOR_LOW_MILLI,
            Target::Mid => ELEVATOR_MID_MILLI,
            Target::High => ELEVATOR_HIGH_MILLI,
            Target::Intake => ELEVATOR_GROUND_MILLI,
        }
    }

    /// Pivot pose in millidegrees; defined for every target, never panics.
    pub fn get_target_pivot(&self) -> (r: i64)
        ensures
            r == self.spec_target_pivot(),
    {
        match self {
            Target::Stow => PIVOT_STOW_MILLIDEG,
            Target::Low => PIVOT_SCORE_MILLIDEG,
            Target::Mid => PIVOT_SCORE_MILLIDEG,
            Target::High => PIVOT_SCORE_MILLIDEG,
            Target::Intake => PIVOT_INTAKE_MILLIDEG,
        }
    }

    /// Intake-arm pose in millidegrees; defined for every target, never panics.
    pub fn get_target_arm(&self) -> (r: i64)
        ensures
            r == self.spec_target_arm(),
    {
        match self {
            Target::Stow => ARM_STOW_MILLIDEG,
            Target::Low => ARM_SCORE_MILLIDEG,
            Target::Mid => ARM_SCORE_MILLIDEG,
            Target::High => ARM_SCORE_MILLIDEG,
            Target::Intake => ARM_INTAKE_MILLIDEG,
        }
    }

    /// Elevator height in milli-units; defined for every target, never panics.
    pub fn get_target_elevator(&self) -> (r: i64)
        ensures
            r == self.spec_target_elevator(),
    {
        match self {
            Target::Stow => ELEVATOR_STOW_MILLI,
            Target::Low => ELEVATOR_LOW_MILLI,
            Target::Mid => ELEVATOR_MID_MILLI,
            Target::High => ELEVATOR_HIGH_MILLI,
            Target::Intake => ELEVATOR_GROUND_MILLI,
        }
    }
}

/// Positions read back from the three primary actuators on one tick, in
/// native milli-units.
#[derive(Clone, Copy, PartialEq, Eq, Structural, Debug)]
pub struct Measurements {
    pub pivot_milli: i64,
    pub elevator_milli: i64,
    pub arm_milli: i64,
}

/// The superstructure aggregate: the three mechanism controllers, the last
/// committed target and the length of the last tick. The loop and the
/// watchdog share one of these through the unverified scheduler outside
/// this crate.
pub struct Ferris {
    pub pivot: Pivot,
    pub elevator: Elevator,
    pub intake: Intake,
    pub dt_micros: u64,
    pub state: Target,
}

impl Ferris {
    /// Every gear ratio stays inside the range the conversions support.
    pub open spec fn wf(&self) -> bool {
        self.pivot.wf() && self.intake.wf()
    }

    /// This aggregate with zero output commanded on every actuator and
    /// nothing else changed.
    pub open spec fn spec_stopped(&self) -> Ferris {
        Ferris {
            pivot: self.pivot.spec_stopped(),
            elevator: self.elevator.spec_stopped(),
            intake: self.intake.spec_stopped(),
            ..*self
        }
    }

    /// Build the aggregate targeting `Stow`, with nothing commanded yet
    /// and the intake's debounce window starting at `now_ms`. Either gear
    /// ratio outside the supported range — zero above all — is refused.
    pub fn new(pivot_gear_ratio_milli: i64, arm_gear_ratio_milli: i64, now_ms: u64) -> (r: Result<
        Ferris,
        ConfigError,
    >)
        ensures
            r is Ok <==> valid_gear_ratio(pivot_gear_ratio_milli) && valid_gear_ratio(
                arm_gear_ratio_milli,
            ),
            r is Ok ==> r->Ok_0 == (Ferris {
                pivot: Pivot {
                    target_state: Target::Stow,
                    gear_ratio_milli: pivot_gear_ratio_milli,
                    command: MotorCommand::Hold,
                },
                elevator: Elevator { target_state: Target::Stow, command: MotorCommand::Hold },
                intake: Intake {
                    target_state: Target::Stow,
                    arm_gear_ratio_milli,
                    arm_command: MotorCommand::Hold,
                    roller_command: MotorCommand::Hold,
                    last_trip_ms: now_ms,
                },
                dt_micros: 0,
                state: Target::Stow,
            }),
            r is Ok ==> r->Ok_0.wf(),
            r is Err ==> r->Err_0 == ConfigError::InvalidGearRatio,
    {
        let pivot = match Pivot::new(pivot_gear_ratio_milli) {
            Ok(p) => p,
            Err(e) => {
                return Err(e);
            },
        };
        let intake = match Intake::new(arm_gear_ratio_milli, now_ms) {
            Ok(i) => i,
            Err(e) => {
                return Err(e);
            },
        };
        Ok(
            Ferris {
                pivot,
                elevator: Elevator::new(),
                intake,
                dt_micros: 0,
                state: Target::Stow,
            },
        )
    }

    /// Command zero output everywhere; safe at any time, never fails, and
    /// idempotent, so the watchdog may retry it on every wake.
    pub fn stop(&mut self)
        ensures
            *final(self) == old(self).spec_stopped(),
    {
        self.pivot.stop();
        self.elevator.stop();
        self.intake.stop();
    }
}

/// Stopping twice is the same as stopping once: the watchdog's emergency
/// stop is idempotent and safe to repeat on every wake while an overrun
/// persists.
pub proof fn lemma_stop_idempotent(f: Ferris)
    ensures
        f.spec_stopped().spec_stopped() == f.spec_stopped(),
{
}

/// Readiness of the whole superstructure: every mechanism is strictly
/// within its own tolerance of its own setpoint.
pub open spec fn spec_all_at_target(
    intake: Intake,
    pivot: Pivot,
    elevator: Elevator,
    m: Measurements,
) -> bool {
    intake.spec_at_target(m.arm_milli) && pivot.spec_at_target(m.pivot_milli)
        && elevator.spec_at_target(m.elevator_milli)
}

/// Broadcast one target to all three mechanisms. Must precede
/// `run_to_state` in the same tick for the new target to take effect that
/// tick.
pub fn set_target(
    intake: &mut Intake,
    pivot: &mut Pivot,
    elevator: &mut Elevator,
    target_state: Target,
)
    ensures
        *final(intake) == old(intake).spec_with_target(target_state),
        *final(pivot) == old(pivot).spec_with_target(target_state),
        *final(elevator) == old(elevator).spec_with_target(target_state),
{
    intake.set_target(target_state);
    pivot.set_target(target_state);
    elevator.set_target(target_state);
}

/// Drive all three mechanisms one tick; they do not read each other's
/// output within a tick, so the order among them does not matter.
pub fn run_to_state(intake: &mut Intake, pivot: &mut Pivot, elevator: &mut Elevator)
    requires
        old(intake).wf(),
        old(pivot).wf(),
    ensures
        *final(intake) == old(intake).spec_ran(),
        *final(pivot) == old(pivot).spec_ran(),
        *final(elevator) == old(elevator).spec_ran(),
{
    intake.run_to_state();
    pivot.run_to_state();
    elevator.run_to_state();
}

/// Aggregate readiness: true exactly when all three mechanisms are at
/// target; one mechanism short of its setpoint makes the whole answer
/// false.
pub fn at_target(intake: &Intake, pivot: &Pivot, elevator: &Elevator, m: &Measurements) -> (r:
    bool)
    requires
        intake.wf(),
        pivot.wf(),
    ensures
        r == spec_all_at_target(*intake, *pivot, *elevator, *m),
        r <==> intake.spec_at_target(m.arm_milli) && pivot.spec_at_target(m.pivot_milli)
            && elevator.spec_at_target(m.elevator_milli),
{
    intake.at_target(m.arm_milli) && pivot.at_target(m.pivot_milli) && elevator.at_target(
        m.elevator_milli,
    )
}

} // verus!
