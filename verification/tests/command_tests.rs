use design_patterns::command::{Invoker, RoboCommand, Robot};

#[test]
fn fresh_robot_is_at_origin_facing_up() {
    let r = Robot::new();
    assert_eq!(r, Robot { x: 0, y: 0, dx: 0, dy: 1 });
}

#[test]
fn robot_command_sequence() {
    let r = Robot::new();
    let mut invoker = Invoker::new(r);
    assert_eq!(*invoker.target(), Robot { x: 0, y: 0, dx: 0, dy: 1 });

    invoker.append_command(RoboCommand::TurnRight);
    invoker.append_command(RoboCommand::TurnLeft);
    invoker.append_command(RoboCommand::MoveForward);

    invoker.execute_all_commands();
    assert_eq!(*invoker.target(), Robot { x: 0, y: 1, dx: 0, dy: 1 });

    invoker.undo();
    assert_eq!(*invoker.target(), Robot { x: 0, y: 0, dx: 0, dy: 1 });

    invoker.undo();
    assert_eq!(*invoker.target(), Robot { x: 0, y: 0, dx: 1, dy: 0 });
}

#[test]
fn double_undo_round_trip() {
    let mut invoker = Invoker::new(Robot::new());
    invoker.append_command(RoboCommand::TurnRight);
    invoker.append_command(RoboCommand::TurnRight);
    invoker.execute_all_commands();
    assert_eq!(invoker.target().get_direction(), (0, -1));

    invoker.undo();
    invoker.undo();
    assert_eq!(invoker.target().get_direction(), (0, 1));
}

#[test]
fn move_forward_undo_composition() {
    let mut invoker = Invoker::new(Robot::new());
    invoker.append_command(RoboCommand::MoveForward);
    invoker.execute_all_commands();
    assert_eq!(*invoker.target(), Robot { x: 0, y: 1, dx: 0, dy: 1 });

    invoker.undo();
    // The direction must be restored bit for bit, not merely up to rotation.
    assert_eq!(*invoker.target(), Robot { x: 0, y: 0, dx: 0, dy: 1 });
}

#[test]
fn execute_and_undo_all_restores_initial_target() {
    let commands = [
        RoboCommand::MoveForward,
        RoboCommand::TurnLeft,
        RoboCommand::MoveForward,
        RoboCommand::MoveForward,
        RoboCommand::TurnRight,
        RoboCommand::TurnRight,
        RoboCommand::MoveForward,
    ];
    let mut invoker = Invoker::new(Robot::new());
    for c in commands.iter() {
        invoker.append_command(*c);
    }
    invoker.execute_all_commands();
    for _ in 0..commands.len() {
        invoker.undo();
    }
    assert_eq!(*invoker.target(), Robot { x: 0, y: 0, dx: 0, dy: 1 });
}

#[test]
fn execute_command_on_empty_queue_is_a_no_op() {
    let mut invoker = Invoker::new(Robot::new());
    invoker.execute_command();
    assert_eq!(*invoker.target(), Robot { x: 0, y: 0, dx: 0, dy: 1 });
}

#[test]
fn undo_on_empty_history_is_a_no_op() {
    let mut invoker = Invoker::new(Robot::new());
    invoker.append_command(RoboCommand::MoveForward);
    invoker.undo();
    invoker.execute_all_commands();
    assert_eq!(*invoker.target(), Robot { x: 0, y: 1, dx: 0, dy: 1 });
}

#[test]
fn undo_requeues_at_the_front() {
    // After undoing MoveForward, re-executing everything pending must
    // replay it: undo puts the command back at the queue's front.
    let mut invoker = Invoker::new(Robot::new());
    invoker.append_command(RoboCommand::MoveForward);
    invoker.execute_all_commands();
    invoker.undo();
    invoker.execute_all_commands();
    assert_eq!(*invoker.target(), Robot { x: 0, y: 1, dx: 0, dy: 1 });
}

#[test]
fn turns_rotate_the_direction() {
    let mut r = Robot::new();
    RoboCommand::TurnRight.execute(&mut r);
    assert_eq!(r.get_direction(), (1, 0));
    RoboCommand::TurnRight.execute(&mut r);
    assert_eq!(r.get_direction(), (0, -1));
    RoboCommand::TurnLeft.execute(&mut r);
    assert_eq!(r.get_direction(), (1, 0));
    RoboCommand::TurnLeft.execute(&mut r);
    assert_eq!(r.get_direction(), (0, 1));
}
