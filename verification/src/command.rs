//! Command invoker with undo, driving a two-dimensional grid robot.
//!
//! Commands wait in a pending queue (first in, first out), move to a history
//! stack when executed, and an `undo` moves the most recently executed
//! command back to the front of the pending queue after reverting its effect
//! on the target.

use vstd::prelude::*;
use std::collections::VecDeque;

verus! {

/// Mathematical model of a robot: unbounded integer position and direction.
pub ghost struct RobotModel {
    pub x: int,
    pub y: int,
    pub dx: int,
    pub dy: int,
}

/// A robot on an integer grid: position `(x, y)` and direction `(dx, dy)`.
#[derive(Clone, Copy, Debug, PartialEq, Eq, Structural)]
pub struct Robot {
    pub x: i32,
    pub y: i32,
    pub dx: i32,
    pub dy: i32,
}

impl View for Robot {
    type V = RobotModel;

    open spec fn view(&self) -> RobotModel {
        RobotModel { x: self.x as int, y: self.y as int, dx: self.dx as int, dy: self.dy as int }
    }
}

impl Robot {
    /// A fresh robot: at the origin, facing `(0, 1)`.
    pub fn new() -> (r: Robot)
        ensures
            r@ == (RobotModel { x: 0, y: 0, dx: 0, dy: 1 }),
    {
        Robot { x: 0, y: 0, dx: 0, dy: 1 }
    }

    /// Step one unit in the current direction.
    pub fn move_forward(&mut self)
        requires
            i32::MIN <= old(self).x + old(self).dx <= i32::MAX,
            i32::MIN <= old(self).y + old(self).dy <= i32::MAX,
        ensures
            final(self)@ == (RobotModel {
                x: old(self)@.x + old(self)@.dx,
                y: old(self)@.y + old(self)@.dy,
                dx: old(self)@.dx,
                dy: old(self)@.dy,
            }),
    {
        self.x = self.x + self.dx;
        self.y = self.y + self.dy;
    }

    /// Replace the direction; the position is untouched.
    pub fn set_direction(&mut self, d: (i32, i32))
        ensures
            final(self)@ == (RobotModel { x: old(self)@.x, y: old(self)@.y, dx: d.0 as int, dy: d.1 as int }),
    {
        self.dx = d.0;
        self.dy = d.1;
    }

    /// The current direction.
    pub fn get_direction(&self) -> (d: (i32, i32))
        ensures
            d.0 == self.dx,
            d.1 == self.dy,
    {
        (self.dx, self.dy)
    }
}

/// The commands understood by the robot.
#[derive(Clone, Copy, Debug, PartialEq, Eq, Structural)]
pub enum RoboCommand {
    MoveForward,
    TurnRight,
    TurnLeft,
}

/// Whether `v` fits the machine's signed 32-bit range.
pub open spec fn in_i32(v: int) -> bool {
    i32::MIN <= v <= i32::MAX
}

/// What one command does to the robot model.
pub open spec fn step(r: RobotModel, c: RoboCommand) -> RobotModel {
    match c {
        RoboCommand::MoveForward => RobotModel { x: r.x + r.dx, y: r.y + r.dy, dx: r.dx, dy: r.dy },
        RoboCommand::TurnRight => RobotModel { x: r.x, y: r.y, dx: r.dy, dy: -r.dx },
        RoboCommand::TurnLeft => RobotModel { x: r.x, y: r.y, dx: -r.dy, dy: r.dx },
    }
}

/// The machine can execute `c` on `r` without overflowing an `i32`.
pub open spec fn step_ok(r: RobotModel, c: RoboCommand) -> bool {
    match c {
        RoboCommand::MoveForward => in_i32(r.x + r.dx) && in_i32(r.y + r.dy),
        RoboCommand::TurnRight => in_i32(-r.dx),
        RoboCommand::TurnLeft => in_i32(-r.dy),
    }
}

/// What undoing one command does to the robot model. Turning is undone by
/// the opposite turn; a forward move is undone by the composite
/// turn-twice, move, turn-twice.
pub open spec fn unstep(r: RobotModel, c: RoboCommand) -> RobotModel {
    match c {
        RoboCommand::MoveForward => step(
            step(
                step(step(step(r, RoboCommand::TurnRight), RoboCommand::TurnRight), RoboCommand::MoveForward),
                RoboCommand::TurnRight,
            ),
            RoboCommand::TurnRight,
        ),
        RoboCommand::TurnRight => step(r, RoboCommand::TurnLeft),
        RoboCommand::TurnLeft => step(r, RoboCommand::TurnRight),
    }
}

/// The machine can undo `c` on `r` without overflowing an `i32`.
pub open spec fn unstep_ok(r: RobotModel, c: RoboCommand) -> bool {
    match c {
        RoboCommand::MoveForward => in_i32(-r.dx) && in_i32(-r.dy) && in_i32(r.x - r.dx) && in_i32(
            r.y - r.dy,
        ),
        RoboCommand::TurnRight => in_i32(-r.dy),
        RoboCommand::TurnLeft => in_i32(-r.dx),
    }
}

impl RoboCommand {
    /// Apply this command to the robot.
    pub fn execute(&self, r: &mut Robot)
        requires
            step_ok(old(r)@, *self),
        ensures
            final(r)@ == step(old(r)@, *self),
    {
        match self {
            RoboCommand::MoveForward => {
                r.move_forward();
            },
            RoboCommand::TurnRight => {
                let (dx, dy) = r.get_direction();
                r.set_direction((dy, -dx));
            },
            RoboCommand::TurnLeft => {
                let (dx, dy) = r.get_direction();
                r.set_direction((-dy, dx));
            },
        }
    }

    /// Revert this command's effect on the robot.
    pub fn undo(&self, r: &mut Robot)
        requires
            unstep_ok(old(r)@, *self),
        ensures
            final(r)@ == unstep(old(r)@, *self),
    {
        match self {
            RoboCommand::MoveForward => {
                let c1 = RoboCommand::TurnRight;
                c1.execute(r);
                c1.execute(r);
                self.execute(r);
                c1.execute(r);
                c1.execute(r);
            },
            RoboCommand::TurnRight => {
                let c = RoboCommand::TurnLeft;
                c.execute(r);
            },
            RoboCommand::TurnLeft => {
                let c = RoboCommand::TurnRight;
                c.execute(r);
            },
        }
    }
}

/// The robot model after running `s` front to back from `r`.
pub open spec fn run(r: RobotModel, s: Seq<RoboCommand>) -> RobotModel
    decreases s.len(),
{
    if s.len() == 0 {
        r
    } else {
        run(step(r, s[0]), s.drop_first())
    }
}

/// Every step of running `s` from `r` stays in the machine's range.
pub open spec fn run_ok(r: RobotModel, s: Seq<RoboCommand>) -> bool
    decreases s.len(),
{
    s.len() == 0 || (step_ok(r, s[0]) && run_ok(step(r, s[0]), s.drop_first()))
}

/// The robot model after undoing `s` back to front from `r`.
pub open spec fn unrun(r: RobotModel, s: Seq<RoboCommand>) -> RobotModel
    decreases s.len(),
{
    if s.len() == 0 {
        r
    } else {
        unrun(unstep(r, s.last()), s.drop_last())
    }
}

/// Undoing a command reverts exactly what executing it did.
pub proof fn lemma_unstep_step(r: RobotModel, c: RoboCommand)
    ensures
        unstep(step(r, c), c) == r,
{
}

/// Running one more command is one more step.
pub proof fn lemma_run_push(r: RobotModel, s: Seq<RoboCommand>, c: RoboCommand)
    ensures
        run(r, s.push(c)) == step(run(r, s), c),
    decreases s.len(),
{
    if s.len() == 0 {
        assert(s.push(c)[0] == c);
        assert(s.push(c).drop_first() =~= Seq::<RoboCommand>::empty());
        assert(run(r, s.push(c)) == run(step(r, c), Seq::<RoboCommand>::empty()));
    } else {
        assert(s.push(c)[0] == s[0]);
        assert(s.push(c).drop_first() =~= s.drop_first().push(c));
        lemma_run_push(step(r, s[0]), s.drop_first(), c);
        assert(run(r, s.push(c)) == run(step(r, s[0]), s.drop_first().push(c)));
    }
}

/// Law: executing a sequence of commands and then undoing them, last to
/// first, returns the robot model to its starting value.
pub proof fn lemma_undo_reverses_run(r: RobotModel, s: Seq<RoboCommand>)
    ensures
        unrun(run(r, s), s) == r,
    decreases s.len(),
{
    if s.len() > 0 {
        assert(s =~= s.drop_last().push(s.last()));
        lemma_run_push(r, s.drop_last(), s.last());
        lemma_unstep_step(run(r, s.drop_last()), s.last());
        lemma_undo_reverses_run(r, s.drop_last());
    }
}

/// Queues commands, executes them against an owned robot, and undoes them.
pub struct Invoker {
    commands: VecDeque<RoboCommand>,
    old_commands: Vec<RoboCommand>,
    target: Robot,
}

impl Invoker {
    /// The commands waiting to be executed, front first.
    pub closed spec fn pending(&self) -> Seq<RoboCommand> {
        self.commands@
    }

    /// The commands already executed, oldest first.
    pub closed spec fn history(&self) -> Seq<RoboCommand> {
        self.old_commands@
    }

    /// The model of the robot the invoker drives.
    pub closed spec fn robot(&self) -> RobotModel {
        self.target@
    }

    /// A fresh invoker over `t`: both the pending queue and the history
    /// stack start empty.
    pub fn new(t: Robot) -> (inv: Invoker)
        ensures
            inv.pending() == Seq::<RoboCommand>::empty(),
            inv.history() == Seq::<RoboCommand>::empty(),
            inv.robot() == t@,
    {
        Invoker { commands: VecDeque::new(), old_commands: Vec::new(), target: t }
    }

    /// A read-only view of the target.
    pub fn target(&self) -> (r: &Robot)
        ensures
            r@ == self.robot(),
    {
        &self.target
    }

    /// Push `c` onto the back of the pending queue. Always succeeds.
    pub fn append_command(&mut self, c: RoboCommand)
        ensures
            final(self).pending() == old(self).pending().push(c),
            final(self).history() == old(self).history(),
            final(self).robot() == old(self).robot(),
    {
        self.commands.push_back(c);
    }

    /// Pop the front pending command, execute it on the target, and push it
    /// onto the history stack; with nothing pending, do nothing.
    pub fn execute_command(&mut self)
        requires
            old(self).pending().len() > 0 ==> step_ok(old(self).robot(), old(self).pending()[0]),
        ensures
            old(self).pending().len() == 0 ==> {
                &&& final(self).pending() == old(self).pending()
                &&& final(self).history() == old(self).history()
                &&& final(self).robot() == old(self).robot()
            },
            old(self).pending().len() > 0 ==> {
                &&& final(self).pending() == old(self).pending().drop_first()
                &&& final(self).history() == old(self).history().push(old(self).pending()[0])
                &&& final(self).robot() == step(old(self).robot(), old(self).pending()[0])
            },
    {
        let command_opt = self.commands.pop_front();
        match command_opt {
            Some(command) => {
                proof {
                    assert(self.commands@ =~= old(self).pending().drop_first());
                }
                command.execute(&mut self.target);
                self.old_commands.push(command);
            },
            None => {},
        }
    }

    /// Execute pending commands front to back until the queue is empty.
    /// Afterwards the history has grown by exactly the commands that were
    /// pending, in their queue order.
    pub fn execute_all_commands(&mut self)
        requires
            run_ok(old(self).robot(), old(self).pending()),
        ensures
            final(self).pending() == Seq::<RoboCommand>::empty(),
            final(self).history() == old(self).history() + old(self).pending(),
            final(self).robot() == run(old(self).robot(), old(self).pending()),
    {
        while self.commands.len() > 0
            invariant
                run_ok(self.robot(), self.pending()),
                run(self.robot(), self.pending()) == run(old(self).robot(), old(self).pending()),
                self.history() + self.pending() =~= old(self).history() + old(self).pending(),
            decreases self.pending().len(),
        {
            let ghost prev = *self;
            self.execute_command();
            proof {
                assert(prev.history() + prev.pending() =~= self.history() + self.pending());
            }
        }
        proof {
            assert(self.history() =~= old(self).history() + old(self).pending());
        }
    }

    /// Pop the most recently executed command, revert its effect on the
    /// target, and put it back at the front of the pending queue; with an
    /// empty history, do nothing.
    pub fn undo(&mut self)
        requires
            old(self).history().len() > 0 ==> unstep_ok(old(self).robot(), old(self).history().last()),
        ensures
            old(self).history().len() == 0 ==> {
                &&& final(self).pending() == old(self).pending()
                &&& final(self).history() == old(self).history()
                &&& final(self).robot() == old(self).robot()
            },
            old(self).history().len() > 0 ==> {
                &&& final(self).pending() == seq![old(self).history().last()] + old(self).pending()
                &&& final(self).history() == old(self).history().drop_last()
                &&& final(self).robot() == unstep(old(self).robot(), old(self).history().last())
            },
    {
        let command_opt = self.old_commands.pop();
        match command_opt {
            Some(command) => {
                proof {
                    assert(self.old_commands@ =~= old(self).history().drop_last());
                }
                command.undo(&mut self.target);
                self.commands.push_front(command);
            },
            None => {},
        }
    }
}

} // verus!
