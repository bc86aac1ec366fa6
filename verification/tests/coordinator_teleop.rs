//! The fan-out/fan-in coordinator and the teleop priority rules.

use ferris_control::at_target;
use ferris_control::control::control_tick;
use ferris_control::control::teleop;
use ferris_control::control::OperatingMode;
use ferris_control::control::TeleopInput;
use ferris_control::elevator::Elevator;
use ferris_control::intake::Intake;
use ferris_control::pivot::Pivot;
use ferris_control::run_to_state;
use ferris_control::set_target;
use ferris_control::Ferris;
use ferris_control::Measurements;
use ferris_control::MotorCommand;
use ferris_control::Target;

fn fresh_robot() -> Ferris {
    // 100:1 reductions on both geared mechanisms.
    Ferris::new(100_000, 100_000, 0).unwrap()
}

fn idle_input(measured: Measurements, now_ms: u64) -> TeleopInput {
    TeleopInput {
        button_low: false,
        button_mid: false,
        button_high: false,
        left_trigger_milli: 0,
        right_trigger_milli: 0,
        measured,
        dist_mm: -1,
        now_ms,
        dt_micros: 4_000,
    }
}

// Native setpoints at a 100:1 reduction.
const PIVOT_LOW_NATIVE: i64 = 12_500;
const PIVOT_STOW_NATIVE: i64 = 25_000;
const ARM_SCORE_NATIVE: i64 = 833;
const ARM_STOW_NATIVE: i64 = 555;
const ARM_INTAKE_NATIVE: i64 = 277;

#[test]
fn aggregate_readiness_is_the_conjunction() {
    let mut pivot = Pivot::new(100_000).unwrap();
    let mut elevator = Elevator::new();
    let mut intake = Intake::new(100_000, 0).unwrap();
    set_target(&mut intake, &mut pivot, &mut elevator, Target::Low);
    run_to_state(&mut intake, &mut pivot, &mut elevator);

    let all_there = Measurements { pivot_milli: PIVOT_LOW_NATIVE, elevator_milli: 0, arm_milli: ARM_SCORE_NATIVE };
    assert!(at_target(&intake, &pivot, &elevator, &all_there));

    // Pivot true + elevator false + arm true gives overall false.
    let elevator_short = Measurements { pivot_milli: PIVOT_LOW_NATIVE, elevator_milli: 700, arm_milli: ARM_SCORE_NATIVE };
    assert!(!at_target(&intake, &pivot, &elevator, &elevator_short));

    let pivot_short = Measurements { pivot_milli: PIVOT_LOW_NATIVE + 600, elevator_milli: 0, arm_milli: ARM_SCORE_NATIVE };
    assert!(!at_target(&intake, &pivot, &elevator, &pivot_short));

    let arm_short = Measurements { pivot_milli: PIVOT_LOW_NATIVE, elevator_milli: 0, arm_milli: ARM_SCORE_NATIVE + 600 };
    assert!(!at_target(&intake, &pivot, &elevator, &arm_short));
}

#[test]
fn commanding_low_commits_the_tick_readiness_is_reached() {
    let mut robot = fresh_robot();

    // Tick one: the level button is held but the mechanisms still measure
    // their stow poses, so the state is not committed.
    let far = Measurements { pivot_milli: PIVOT_STOW_NATIVE, elevator_milli: 0, arm_milli: ARM_SCORE_NATIVE };
    let mut inp = idle_input(far, 1_000);
    inp.button_low = true;
    let rumble = teleop(&mut robot, &inp);
    assert_eq!(rumble, None);
    assert_eq!(robot.state, Target::Stow);
    // The setpoints went out all the same.
    assert_eq!(robot.pivot.command, MotorCommand::Position(PIVOT_LOW_NATIVE));
    assert_eq!(robot.elevator.command, MotorCommand::Position(0));
    assert_eq!(robot.intake.arm_command, MotorCommand::Position(ARM_SCORE_NATIVE));

    // Tick two: pivot and elevator reach their Low setpoints (the arm was
    // already at the score pose); readiness flips and the state commits in
    // the same tick.
    let there = Measurements { pivot_milli: PIVOT_LOW_NATIVE, elevator_milli: 0, arm_milli: ARM_SCORE_NATIVE };
    let mut inp2 = idle_input(there, 1_004);
    inp2.button_low = true;
    teleop(&mut robot, &inp2);
    assert!(at_target(&robot.intake, &robot.pivot, &robot.elevator, &there));
    assert_eq!(robot.state, Target::Low);
}

#[test]
fn level_buttons_take_priority_over_triggers() {
    let mut robot = fresh_robot();
    let far = Measurements { pivot_milli: 0, elevator_milli: 0, arm_milli: 0 };
    let mut inp = idle_input(far, 500);
    inp.button_mid = true;
    inp.left_trigger_milli = 1_000;
    inp.right_trigger_milli = 1_000;
    let rumble = teleop(&mut robot, &inp);
    // The level branch ran: everything targets Mid, the triggers were
    // ignored, the roller was left alone.
    assert_eq!(robot.pivot.target_state, Target::Mid);
    assert_eq!(robot.elevator.target_state, Target::Mid);
    assert_eq!(robot.intake.target_state, Target::Mid);
    assert_eq!(robot.intake.roller_command, MotorCommand::Hold);
    assert_eq!(robot.state, Target::Stow);
    assert_eq!(rumble, None);
}

#[test]
fn intake_trigger_first_drives_to_the_intake_pose() {
    let mut robot = fresh_robot();
    let far = Measurements { pivot_milli: PIVOT_STOW_NATIVE, elevator_milli: 0, arm_milli: ARM_STOW_NATIVE };
    let mut inp = idle_input(far, 500);
    inp.left_trigger_milli = 800;
    let rumble = teleop(&mut robot, &inp);
    // Not yet in the Intake state: the tick commands the pose and waits.
    assert_eq!(robot.pivot.target_state, Target::Intake);
    assert_eq!(robot.state, Target::Stow);
    assert_eq!(robot.intake.roller_command, MotorCommand::Hold);
    assert_eq!(rumble, None);

    // Once at the intake pose the state commits.
    let at_intake = Measurements { pivot_milli: 0, elevator_milli: 0, arm_milli: ARM_INTAKE_NATIVE };
    let mut inp2 = idle_input(at_intake, 504);
    inp2.left_trigger_milli = 800;
    teleop(&mut robot, &inp2);
    assert_eq!(robot.state, Target::Intake);
}

#[test]
fn held_intake_trigger_captures_once_and_rumbles() {
    let mut robot = fresh_robot();
    let at_intake = Measurements { pivot_milli: 0, elevator_milli: 0, arm_milli: ARM_INTAKE_NATIVE };

    // Reach and commit the Intake state first.
    let mut inp = idle_input(at_intake, 300);
    inp.left_trigger_milli = 800;
    teleop(&mut robot, &inp);
    assert_eq!(robot.state, Target::Intake);

    // A piece sits in range: the first attempt past the debounce window
    // captures it and rumbles.
    let mut inp2 = idle_input(at_intake, 400);
    inp2.left_trigger_milli = 800;
    inp2.dist_mm = 5;
    let rumble2 = teleop(&mut robot, &inp2);
    assert_eq!(rumble2, Some(true));

    // Held through the next tick: the same piece is not reported again.
    let mut inp3 = idle_input(at_intake, 404);
    inp3.left_trigger_milli = 800;
    inp3.dist_mm = 5;
    let rumble3 = teleop(&mut robot, &inp3);
    assert_eq!(rumble3, Some(false));

    // Releasing the trigger switches the feedback off.
    let inp4 = idle_input(at_intake, 408);
    let rumble4 = teleop(&mut robot, &inp4);
    assert_eq!(rumble4, Some(false));
}

#[test]
fn outtake_only_acts_from_a_scoring_state_at_target() {
    let mut robot = fresh_robot();
    let low_pose = Measurements { pivot_milli: PIVOT_LOW_NATIVE, elevator_milli: 0, arm_milli: ARM_SCORE_NATIVE };

    // From Stow the outtake trigger does nothing.
    let stow_pose = Measurements { pivot_milli: PIVOT_STOW_NATIVE, elevator_milli: 0, arm_milli: ARM_STOW_NATIVE };
    let mut inp = idle_input(stow_pose, 100);
    inp.right_trigger_milli = 900;
    teleop(&mut robot, &inp);
    assert_eq!(robot.intake.roller_command, MotorCommand::Hold);

    // Commit Low, then the trigger issues the outtake duty cycle without
    // touching any target.
    let mut inp2 = idle_input(low_pose, 104);
    inp2.button_low = true;
    teleop(&mut robot, &inp2);
    assert_eq!(robot.state, Target::Low);

    let mut inp3 = idle_input(low_pose, 108);
    inp3.right_trigger_milli = 900;
    teleop(&mut robot, &inp3);
    assert_eq!(robot.intake.roller_command, MotorCommand::Percent(0));
    assert_eq!(robot.state, Target::Low);
    assert_eq!(robot.pivot.target_state, Target::Low);
}

#[test]
fn disabled_tick_stops_everything_and_other_does_nothing() {
    let mut robot = fresh_robot();
    let far = Measurements { pivot_milli: 0, elevator_milli: 0, arm_milli: 0 };
    let mut inp = idle_input(far, 50);
    inp.button_high = true;
    control_tick(&mut robot, OperatingMode::Teleop, &inp);
    assert_eq!(robot.pivot.target_state, Target::High);
    assert_eq!(robot.dt_micros, 4_000);

    let rumble = control_tick(&mut robot, OperatingMode::Disabled, &idle_input(far, 54));
    assert_eq!(rumble, None);
    assert_eq!(robot.pivot.command, MotorCommand::Stop);
    assert_eq!(robot.elevator.command, MotorCommand::Stop);
    assert_eq!(robot.intake.arm_command, MotorCommand::Stop);
    assert_eq!(robot.intake.roller_command, MotorCommand::Stop);
    // The targets survive a stop.
    assert_eq!(robot.pivot.target_state, Target::High);

    let before_target = robot.pivot.target_state;
    let before_command = robot.pivot.command;
    control_tick(&mut robot, OperatingMode::Other, &idle_input(far, 58));
    assert_eq!(robot.pivot.target_state, before_target);
    assert_eq!(robot.pivot.command, before_command);
}
