//! Decisions of the fixed-cadence control loop: the per-tick operating-mode
//! dispatch, the teleoperated input priority rules, and the pacing of the
//! loop to its target period. The scheduler that polls the hardware, calls
//! in here and sleeps lives outside this crate.

use vstd::prelude::*;

use crate::at_target;
use crate::constants::TRIGGER_THRESHOLD_MILLI;
use crate::intake::Intake;
use crate::run_to_state;
use crate::set_target;
use crate::spec_all_at_target;
use crate::Ferris;
use crate::Measurements;
use crate::MotorCommand;
use crate::Target;

verus! {

/// The robot's operating mode, polled once per tick from the field-control
/// source.
#[derive(Clone, Copy, PartialEq, Eq, Structural, Debug)]
pub enum OperatingMode {
    /// Outputs must be stopped; nothing else happens this tick.
    Disabled,
    /// Driver inputs steer the superstructure.
    Teleop,
    /// Enabled in some other mode; this loop takes no action.
    Other,
}

/// Everything the teleop handler reads on one tick: driver inputs, measured
/// positions, the range reading and the tick's wall-clock time.
#[derive(Clone, Copy, PartialEq, Eq, Structural, Debug)]
pub struct TeleopInput {
    /// Level-select buttons, highest priority first: low, mid, high.
    pub button_low: bool,
    pub button_mid: bool,
    pub button_high: bool,
    /// Analog triggers, in thousandths of full travel.
    pub left_trigger_milli: i64,
    pub right_trigger_milli: i64,
    /// Positions read back from the actuators this tick.
    pub measured: Measurements,
    /// Range reading in millimeters, or the no-reading sentinel.
    pub dist_mm: i32,
    /// Wall-clock time of this tick, in milliseconds.
    pub now_ms: u64,
    /// Length of the previous tick, in microseconds.
    pub dt_micros: u64,
}

/// The level the explicit select buttons ask for, highest priority first;
/// none held means no level branch this tick.
pub open spec fn spec_level_choice(inp: TeleopInput) -> Option<Target> {
    if inp.button_low {
        Some(Target::Low)
    } else if inp.button_mid {
        Some(Target::Mid)
    } else if inp.button_high {
        Some(Target::High)
    } else {
        None
    }
}

/// The aggregate after broadcasting `t` and driving every mechanism toward
/// it on the same tick.
pub open spec fn spec_set_and_run(f: Ferris, t: Target) -> Ferris {
    Ferris {
        pivot: f.pivot.spec_with_target(t).spec_ran(),
        elevator: f.elevator.spec_with_target(t).spec_ran(),
        intake: f.intake.spec_with_target(t).spec_ran(),
        ..f
    }
}

/// The aggregate with `t` committed as the robot's state exactly when all
/// mechanisms measure at target.
pub open spec fn spec_commit_if_ready(f: Ferris, t: Target, m: Measurements) -> Ferris {
    if spec_all_at_target(f.intake, f.pivot, f.elevator, m) {
        Ferris { state: t, ..f }
    } else {
        f
    }
}

/// What one teleop tick does, as a relation between the aggregate before
/// and after, the inputs, and the haptic feedback commanded to the driver
/// (`None` leaves the feedback as it was).
///
/// The branches are exclusive, highest priority first:
/// 1. A level-select button: command that level everywhere and commit it as
///    the robot's state once everything measures at target.
/// 2. The intake trigger: if the committed state is already `Intake` and
///    everything is at target, attempt one debounced capture and signal the
///    outcome through the feedback; otherwise first command `Intake` and
///    commit it once at target.
/// 3. The outtake trigger: only when the committed state is neither `Stow`
///    nor `Intake` and everything is at target, run the roller at the
///    outtake duty cycle without changing any target.
/// Whenever the intake trigger is not held (and no level button overrides
/// it), the feedback is switched off.
pub open spec fn spec_teleop(pre: Ferris, post: Ferris, inp: TeleopInput, rumble: Option<
    bool,
>) -> bool {
    match spec_level_choice(inp) {
        Some(t) => {
            &&& post == spec_commit_if_ready(spec_set_and_run(pre, t), t, inp.measured)
            &&& rumble is None
        },
        None => {
            if inp.left_trigger_milli > TRIGGER_THRESHOLD_MILLI {
                if pre.state == Target::Intake && spec_all_at_target(
                    pre.intake,
                    pre.pivot,
                    pre.elevator,
                    inp.measured,
                ) {
                    &&& post == (Ferris {
                        intake: pre.intake.spec_after_intake(inp.now_ms, inp.dist_mm),
                        ..pre
                    })
                    &&& rumble == Some(pre.intake.spec_debounced(inp.now_ms, inp.dist_mm))
                } else {
                    &&& post == spec_commit_if_ready(
                        spec_set_and_run(pre, Target::Intake),
                        Target::Intake,
                        inp.measured,
                    )
                    &&& rumble is None
                }
            } else {
                &&& rumble == Some(false)
                &&& if inp.right_trigger_milli > TRIGGER_THRESHOLD_MILLI && !(pre.state
                    == Target::Stow) && !(pre.state == Target::Intake) && spec_all_at_target(
                    pre.intake,
                    pre.pivot,
                    pre.elevator,
                    inp.measured,
                ) {
                    post == (Ferris {
                        intake: (Intake {
                            roller_command: MotorCommand::Percent(
                                crate::constants::OUTTAKE_SPEED_MILLI,
                            ),
                            ..pre.intake
                        }),
                        ..pre
                    })
                } else {
                    post == pre
                }
            }
        },
    }
}

/// One teleop tick: read the inputs, apply the priority rules, and return
/// the haptic feedback to command (`None` leaves it unchanged). The clock
/// is monotonic, so the tick's time never lies before the intake's last
/// accepted trip.
pub fn teleop(robot: &mut Ferris, inp: &TeleopInput) -> (rumble: Option<bool>)
    requires
        old(robot).wf(),
        old(robot).intake.last_trip_ms <= inp.now_ms,
    ensures
        spec_teleop(*old(robot), *final(robot), *inp, rumble),
        final(robot).wf(),
        final(robot).intake.last_trip_ms <= inp.now_ms,
{
    let level: Option<Target> = if inp.button_low {
        Some(Target::Low)
    } else if inp.button_mid {
        Some(Target::Mid)
    } else if inp.button_high {
        Some(Target::High)
    } else {
        None
    };
    match level {
        Some(t) => {
            set_target(&mut robot.intake, &mut robot.pivot, &mut robot.elevator, t);
            run_to_state(&mut robot.intake, &mut robot.pivot, &mut robot.elevator);
            if at_target(&robot.intake, &robot.pivot, &robot.elevator, &inp.measured) {
                robot.state = t;
            }
            None
        },
        None => {
            if inp.left_trigger_milli > TRIGGER_THRESHOLD_MILLI {
                let ready: bool = at_target(
                    &robot.intake,
                    &robot.pivot,
                    &robot.elevator,
                    &inp.measured,
                );
                if robot.state == Target::Intake && ready {
                    let has_piece: bool = robot.intake.intake(inp.now_ms, inp.dist_mm);
                    Some(has_piece)
                } else {
                    set_target(
                        &mut robot.intake,
                        &mut robot.pivot,
                        &mut robot.elevator,
                        Target::Intake,
                    );
                    run_to_state(&mut robot.intake, &mut robot.pivot, &mut robot.elevator);
                    if at_target(&robot.intake, &robot.pivot, &robot.elevator, &inp.measured) {
                        robot.state = Target::Intake;
                    }
                    None
                }
            } else {
                if inp.right_trigger_milli > TRIGGER_THRESHOLD_MILLI {
                    let ready: bool = at_target(
                        &robot.intake,
                        &robot.pivot,
                        &robot.elevator,
                        &inp.measured,
                    );
                    if !(robot.state == Target::Stow) && !(robot.state == Target::Intake)
                        && ready {
                        robot.intake.outtake();
                    }
                }
                Some(false)
            }
        },
    }
}

/// One control-loop tick: on `Disabled` stop everything and do nothing
/// else; on `Teleop` record the tick length and run the teleop handler; in
/// any other enabled mode take no action.
pub fn control_tick(robot: &mut Ferris, mode: OperatingMode, inp: &TeleopInput) -> (rumble:
    Option<bool>)
    requires
        old(robot).wf(),
        old(robot).intake.last_trip_ms <= inp.now_ms,
    ensures
        mode == OperatingMode::Disabled ==> *final(robot) == old(robot).spec_stopped() && rumble
            is None,
        mode == OperatingMode::Teleop ==> spec_teleop(
            (Ferris { dt_micros: inp.dt_micros, ..*old(robot) }),
            *final(robot),
            *inp,
            rumble,
        ),
        mode == OperatingMode::Other ==> *final(robot) == *old(robot) && rumble is None,
        final(robot).wf(),
        final(robot).intake.last_trip_ms <= inp.now_ms,
{
    match mode {
        OperatingMode::Disabled => {
            robot.stop();
            None
        },
        OperatingMode::Teleop => {
            robot.dt_micros = inp.dt_micros;
            teleop(robot, inp)
        },
        OperatingMode::Other => None,
    }
}

/// How long the loop sleeps at the end of a tick, in microseconds: the
/// remainder of the target period, and nothing at all once the tick has
/// overrun it — never a negative wait.
pub fn pacing_sleep_micros(period_micros: u64, elapsed_micros: u64) -> (r: u64)
    ensures
        r == (if elapsed_micros >= period_micros {
            0u64
        } else {
            (period_micros - elapsed_micros) as u64
        }),
        elapsed_micros + r >= period_micros,
{
    if elapsed_micros >= period_micros {
        0
    } else {
        period_micros - elapsed_micros
    }
}

} // verus!
