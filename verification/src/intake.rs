//! The intake: a positioned arm plus a roller, wrapped around a range
//! sensor with a trip threshold and a debounce window, so that one physical
//! capture is reported exactly once.

use vstd::prelude::*;

use crate::constants::ARM_ERROR_THRESHOLD_MILLI;
use crate::constants::DEBOUNCE_DURATION_MS;
use crate::constants::INTAKE_SPEED_MILLI;
use crate::constants::INTAKE_TRIP_DISTANCE_MM;
use crate::constants::MAX_GEAR_RATIO_MILLI;
use crate::constants::NO_READING_MM;
use crate::constants::OUTTAKE_SPEED_MILLI;
use crate::units::millideg_to_native;
use crate::units::spec_millideg_to_native;
use crate::units::valid_gear_ratio;
use crate::ConfigError;
use crate::MotorCommand;
use crate::Target;

verus! {

/// A range reading counts as a trip when it is strictly below the trip
/// distance and is not the sensor's "no reading" sentinel; the sentinel is
/// numerically below the threshold yet never trips.
pub open spec fn spec_tripped(dist_mm: i32) -> bool {
    dist_mm < INTAKE_TRIP_DISTANCE_MM && dist_mm != NO_READING_MM
}

/// State of the intake controller: the arm's target and gear reduction,
/// the commands last issued to the arm and roller motors, and the time of
/// the last accepted trip, which arms the debounce window.
pub struct Intake {
    pub target_state: Target,
    pub arm_gear_ratio_milli: i64,
    pub arm_command: MotorCommand,
    pub roller_command: MotorCommand,
    pub last_trip_ms: u64,
}

impl Intake {
    /// The gear ratio stays inside the range the conversions support.
    pub open spec fn wf(&self) -> bool {
        valid_gear_ratio(self.arm_gear_ratio_milli)
    }

    /// The native arm setpoint, in milli-rotations, the current target
    /// asks for.
    pub open spec fn spec_native_target(&self) -> int {
        spec_millideg_to_native(self.target_state.spec_target_arm(), self.arm_gear_ratio_milli)
    }

    /// Readiness: the measured arm position is strictly within the fixed
    /// tolerance of the commanded setpoint. Exactly at the tolerance is
    /// not at target.
    pub open spec fn spec_at_target(&self, measured_milli: i64) -> bool {
        let error = self.spec_native_target() - measured_milli;
        (if error < 0 {
            -error
        } else {
            error
        }) < ARM_ERROR_THRESHOLD_MILLI
    }

    /// A trip at `now_ms` is accepted when the reading trips and the
    /// debounce window since the last accepted trip has fully elapsed.
    pub open spec fn spec_debounced(&self, now_ms: u64, dist_mm: i32) -> bool {
        spec_tripped(dist_mm) && now_ms - self.last_trip_ms >= DEBOUNCE_DURATION_MS
    }

    /// This intake with the debounce window restarted at `now_ms`.
    pub open spec fn spec_after_trip(&self, now_ms: u64) -> Intake {
        Intake { last_trip_ms: now_ms, ..*self }
    }

    /// This intake with zero output commanded on both motors and nothing
    /// else changed.
    pub open spec fn spec_stopped(&self) -> Intake {
        Intake { arm_command: MotorCommand::Stop, roller_command: MotorCommand::Stop, ..*self }
    }

    /// This intake retargeted and nothing else changed.
    pub open spec fn spec_with_target(&self, target_state: Target) -> Intake {
        Intake { target_state, ..*self }
    }

    /// This intake after issuing the arm position command for its target.
    pub open spec fn spec_ran(&self) -> Intake {
        Intake { arm_command: MotorCommand::Position(self.spec_native_target() as i64), ..*self }
    }

    /// This intake after one capture attempt at `now_ms`: the roller runs
    /// at the intake duty cycle and the debounce window restarts exactly
    /// when the trip was accepted.
    pub open spec fn spec_after_intake(&self, now_ms: u64, dist_mm: i32) -> Intake {
        let stepped = if self.spec_debounced(now_ms, dist_mm) {
            self.spec_after_trip(now_ms)
        } else {
            *self
        };
        Intake { roller_command: MotorCommand::Percent(INTAKE_SPEED_MILLI), ..stepped }
    }

    /// Build an intake controller targeting `Stow`, with nothing commanded
    /// yet and the debounce window starting at `now_ms`, so no trip is
    /// accepted before one full window has passed. A gear ratio outside
    /// the supported range — zero above all — is refused.
    pub fn new(arm_gear_ratio_milli: i64, now_ms: u64) -> (r: Result<Intake, ConfigError>)
        ensures
            r is Ok <==> valid_gear_ratio(arm_gear_ratio_milli),
            r is Ok ==> r->Ok_0 == (Intake {
                target_state: Target::Stow,
                arm_gear_ratio_milli,
                arm_command: MotorCommand::Hold,
                roller_command: MotorCommand::Hold,
                last_trip_ms: now_ms,
            }),
            r is Err ==> r->Err_0 == ConfigError::InvalidGearRatio,
    {
        if 1 <= arm_gear_ratio_milli && arm_gear_ratio_milli <= MAX_GEAR_RATIO_MILLI {
            Ok(
                Intake {
                    target_state: Target::Stow,
                    arm_gear_ratio_milli,
                    arm_command: MotorCommand::Hold,
                    roller_command: MotorCommand::Hold,
                    last_trip_ms: now_ms,
                },
            )
        } else {
            Err(ConfigError::InvalidGearRatio)
        }
    }

    /// Whether a range reading counts as a trip; pure, no state change.
    pub fn is_tripped(&self, dist_mm: i32) -> (r: bool)
        ensures
            r == spec_tripped(dist_mm),
    {
        dist_mm < INTAKE_TRIP_DISTANCE_MM && dist_mm != NO_READING_MM
    }

    /// Report a trip at most once per debounce window: true exactly when
    /// the reading trips and the window has elapsed, and only then restart
    /// the window at `now_ms`. The clock is monotonic, so `now_ms` never
    /// lies before the recorded trip.
    pub fn is_debounced(&mut self, now_ms: u64, dist_mm: i32) -> (r: bool)
        requires
            old(self).last_trip_ms <= now_ms,
        ensures
            r == old(self).spec_debounced(now_ms, dist_mm),
            r ==> *final(self) == old(self).spec_after_trip(now_ms),
            !r ==> *final(self) == *old(self),
            final(self).last_trip_ms <= now_ms,
    {
        if self.is_tripped(dist_mm) && now_ms - self.last_trip_ms >= DEBOUNCE_DURATION_MS {
            self.last_trip_ms = now_ms;
            true
        } else {
            false
        }
    }

    /// Attempt a debounced capture: run the roller at the intake duty
    /// cycle and report whether this tick accepted a trip.
    pub fn intake(&mut self, now_ms: u64, dist_mm: i32) -> (has_piece: bool)
        requires
            old(self).last_trip_ms <= now_ms,
        ensures
            has_piece == old(self).spec_debounced(now_ms, dist_mm),
            final(self).roller_command == MotorCommand::Percent(INTAKE_SPEED_MILLI),
            final(self).last_trip_ms == (if has_piece {
                now_ms
            } else {
                old(self).last_trip_ms
            }),
            final(self).target_state == old(self).target_state,
            final(self).arm_gear_ratio_milli == old(self).arm_gear_ratio_milli,
            final(self).arm_command == old(self).arm_command,
    {
        self.set_intake_speed(INTAKE_SPEED_MILLI);
        self.is_debounced(now_ms, dist_mm)
    }

    /// Run the roller at the outtake duty cycle to release a held piece.
    pub fn outtake(&mut self)
        ensures
            final(self).roller_command == MotorCommand::Percent(OUTTAKE_SPEED_MILLI),
            final(self).target_state == old(self).target_state,
            final(self).arm_gear_ratio_milli == old(self).arm_gear_ratio_milli,
            final(self).arm_command == old(self).arm_command,
            final(self).last_trip_ms == old(self).last_trip_ms,
    {
        self.set_intake_speed(OUTTAKE_SPEED_MILLI);
    }

    /// Command an open-loop duty cycle, in thousandths of full output, on
    /// the roller.
    pub fn set_intake_speed(&mut self, speed_milli: i64)
        requires
            -1000 <= speed_milli <= 1000,
        ensures
            final(self).roller_command == MotorCommand::Percent(speed_milli),
            final(self).target_state == old(self).target_state,
            final(self).arm_gear_ratio_milli == old(self).arm_gear_ratio_milli,
            final(self).arm_command == old(self).arm_command,
            final(self).last_trip_ms == old(self).last_trip_ms,
    {
        self.roller_command = MotorCommand::Percent(speed_milli);
    }

    /// Store the target; no actuator traffic, total, never fails.
    pub fn set_target(&mut self, target_state: Target)
        ensures
            final(self).target_state == target_state,
            final(self).arm_gear_ratio_milli == old(self).arm_gear_ratio_milli,
            final(self).arm_command == old(self).arm_command,
            final(self).roller_command == old(self).roller_command,
            final(self).last_trip_ms == old(self).last_trip_ms,
    {
        self.target_state = target_state;
    }

    /// Issue the arm position command for the current target.
    pub fn run_to_state(&mut self)
        requires
            old(self).wf(),
        ensures
            final(self).arm_command == MotorCommand::Position(
                old(self).spec_native_target() as i64,
            ),
            final(self).target_state == old(self).target_state,
            final(self).arm_gear_ratio_milli == old(self).arm_gear_ratio_milli,
            final(self).roller_command == old(self).roller_command,
            final(self).last_trip_ms == old(self).last_trip_ms,
    {
        let target_native: i64 = millideg_to_native(
            self.target_state.get_target_arm(),
            self.arm_gear_ratio_milli,
        );
        self.arm_command = MotorCommand::Position(target_native);
    }

    /// Readiness against a measured arm position.
    pub fn at_target(&self, measured_milli: i64) -> (r: bool)
        requires
            self.wf(),
        ensures
            r == self.spec_at_target(measured_milli),
    {
        let target_native: i64 = millideg_to_native(
            self.target_state.get_target_arm(),
            self.arm_gear_ratio_milli,
        );
        let error: i128 = (target_native as i128) - (measured_milli as i128);
        let magnitude: i128 = if error < 0 {
            -error
        } else {
            error
        };
        magnitude < ARM_ERROR_THRESHOLD_MILLI as i128
    }

    /// Command zero output on both motors; safe at any time, never fails,
    /// idempotent.
    pub fn stop(&mut self)
        ensures
            *final(self) == old(self).spec_stopped(),
    {
        self.arm_command = MotorCommand::Stop;
        self.roller_command = MotorCommand::Stop;
    }
}

/// The sensor's "no reading" sentinel never trips the detector, although it
/// is numerically below the trip distance, so a faulted sensor never counts
/// as a capture.
pub proof fn lemma_no_reading_never_trips(d: Intake, now_ms: u64)
    ensures
        !spec_tripped(NO_READING_MM),
        !d.spec_debounced(now_ms, NO_READING_MM),
{
}

/// At most one trip is reported per debounce window: once a trip is
/// accepted at `now1_ms`, every poll strictly inside the following window
/// reports none, whatever the sensor reads and however often it is polled.
pub proof fn lemma_one_trip_per_debounce_window(
    d: Intake,
    now1_ms: u64,
    dist1_mm: i32,
    now2_ms: u64,
    dist2_mm: i32,
)
    requires
        d.spec_debounced(now1_ms, dist1_mm),
        now1_ms <= now2_ms,
        now2_ms - now1_ms < DEBOUNCE_DURATION_MS,
    ensures
        !d.spec_after_trip(now1_ms).spec_debounced(now2_ms, dist2_mm),
{
}

} // verus!
