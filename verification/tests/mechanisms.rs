//! Per-mechanism readiness boundaries and commands.

use ferris_control::elevator::Elevator;
use ferris_control::intake::Intake;
use ferris_control::pivot::Pivot;
use ferris_control::MotorCommand;
use ferris_control::Target;

#[test]
fn pivot_at_target_boundary_is_exclusive() {
    // 1:1 reduction; Low asks for 45 degrees = 125 milli-rotations.
    let mut pivot = Pivot::new(1_000).unwrap();
    pivot.set_target(Target::Low);
    assert!(pivot.at_target(125));
    assert!(pivot.at_target(125 + 499));
    assert!(pivot.at_target(125 - 499));
    // Exactly at the 0.5-unit tolerance is not at target.
    assert!(!pivot.at_target(125 + 500));
    assert!(!pivot.at_target(125 - 500));
    assert!(!pivot.at_target(125 + 501));
}

#[test]
fn elevator_at_target_boundary_is_exclusive() {
    let mut elevator = Elevator::new();
    elevator.set_target(Target::High);
    assert!(elevator.at_target(0));
    assert!(elevator.at_target(499));
    assert!(elevator.at_target(-499));
    assert!(!elevator.at_target(500));
    assert!(!elevator.at_target(-500));
}

#[test]
fn arm_at_target_boundary_is_exclusive() {
    // 1:1 reduction; the score pose of 3 degrees truncates to 8
    // milli-rotations.
    let mut intake = Intake::new(1_000, 0).unwrap();
    intake.set_target(Target::Low);
    assert!(intake.at_target(8));
    assert!(intake.at_target(8 + 499));
    assert!(!intake.at_target(8 + 500));
    assert!(!intake.at_target(8 - 500));
}

#[test]
fn run_to_state_commands_the_target_setpoint() {
    let mut pivot = Pivot::new(1_000).unwrap();
    assert_eq!(pivot.command, MotorCommand::Hold);
    pivot.set_target(Target::Low);
    // Setting a target alone issues nothing.
    assert_eq!(pivot.command, MotorCommand::Hold);
    pivot.run_to_state();
    assert_eq!(pivot.command, MotorCommand::Position(125));

    let mut elevator = Elevator::new();
    elevator.run_to_state();
    assert_eq!(elevator.command, MotorCommand::Position(0));

    let mut intake = Intake::new(1_000, 0).unwrap();
    intake.set_target(Target::Intake);
    intake.run_to_state();
    // 1 degree at 1:1 is 2.77 milli-rotations, truncated to 2.
    assert_eq!(intake.arm_command, MotorCommand::Position(2));
}

#[test]
fn stop_commands_zero_output_and_keeps_the_target() {
    let mut pivot = Pivot::new(1_000).unwrap();
    pivot.set_target(Target::Mid);
    pivot.run_to_state();
    pivot.stop();
    assert_eq!(pivot.command, MotorCommand::Stop);
    assert_eq!(pivot.target_state, Target::Mid);

    let mut intake = Intake::new(1_000, 0).unwrap();
    intake.run_to_state();
    intake.stop();
    assert_eq!(intake.arm_command, MotorCommand::Stop);
    assert_eq!(intake.roller_command, MotorCommand::Stop);

    // A skipped tick after a stop repeats nothing: the commands stay put.
    intake.stop();
    assert_eq!(intake.arm_command, MotorCommand::Stop);
    assert_eq!(intake.roller_command, MotorCommand::Stop);
}

#[test]
fn pivot_reports_its_angle_from_a_reading() {
    let pivot = Pivot::new(1_000).unwrap();
    assert_eq!(pivot.get_angle(250), 90_000);
    assert_eq!(pivot.get_angle(-250), -90_000);
}

#[test]
fn roller_speed_commands_are_recorded() {
    let mut intake = Intake::new(1_000, 0).unwrap();
    intake.set_intake_speed(700);
    assert_eq!(intake.roller_command, MotorCommand::Percent(700));
    intake.outtake();
    assert_eq!(intake.roller_command, MotorCommand::Percent(0));
}
