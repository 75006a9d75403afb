//! A model of the lines as the chip sees them, for stating what a finished task has
//! done to them.

use vstd::prelude::*;
use crate::signal::{Action, Level, Line, Reply};
use crate::task::{accesses_left, Poll, TaskView};

verus! {

/// What stands on the lines: the level of each digital line, and for each PWM channel
/// its duty and the duty that is 100 % on it.
pub struct Board {
    pub level: Map<Line, Level>,
    pub duty: Map<Line, int>,
    pub max_duty: Map<Line, u16>,
}

impl Board {
    /// The board after `action` went through. A write changes its own line and no
    /// other; a read changes nothing.
    pub open spec fn after(self, action: Action) -> Board {
        match action {
            Action::SetLow(line) => Board { level: self.level.insert(line, Level::Low), ..self },
            Action::SetHigh(line) => Board {
                level: self.level.insert(line, Level::High),
                ..self
            },
            Action::SetDutyCycleFullyOff(line) => Board {
                duty: self.duty.insert(line, 0),
                ..self
            },
            Action::SetDutyCycleFullyOn(line) => Board {
                duty: self.duty.insert(line, self.max_duty[line] as int),
                ..self
            },
            Action::SetDutyCycle(line, duty) => Board {
                duty: self.duty.insert(line, duty as int),
                ..self
            },
            Action::SetDutyCyclePercent(line, percent) => Board {
                duty: self.duty.insert(line, percent * self.max_duty[line] / 100),
                ..self
            },
            Action::MaxDutyCycle(_) => self,
            Action::IsLow(_) => self,
        }
    }

    /// The reply to `action` on a board where every access goes through.
    pub open spec fn reply(self, action: Action) -> Reply {
        match action {
            Action::MaxDutyCycle(line) => Reply::MaxDutyCycle(self.max_duty[line]),
            Action::IsLow(line) => Reply::IsLow(self.level[line] == Level::Low),
            _ => Reply::Done,
        }
    }
}

/// A task that has come to rest, and the board it left.
pub struct Settled {
    pub task: TaskView,
    pub board: Board,
}

/// Carries `task` out on `board`, where every access goes through, until the task
/// asks for nothing more.
pub open spec fn settle(task: TaskView, board: Board) -> Settled
    decreases accesses_left(task),
{
    match task.poll() {
        Poll::Perform(action) => settle(task.resume(board.reply(action)), board.after(action)),
        Poll::Finished(_) => Settled { task, board },
    }
}

/// Carries `task` out on `board` as `settle` does, but for one access: the one that
/// `good` accesses go before is answered with `Reply::Failed` and leaves the board
/// as it finds it. Where the task asks for no more than `good` accesses, nothing
/// fails.
pub open spec fn settle_failing(task: TaskView, board: Board, good: nat) -> Settled
    decreases accesses_left(task),
{
    match task.poll() {
        Poll::Perform(action) => if good == 0 {
            Settled { task: task.resume(Reply::Failed), board }
        } else {
            settle_failing(
                task.resume(board.reply(action)),
                board.after(action),
                (good - 1) as nat,
            )
        },
        Poll::Finished(_) => Settled { task, board },
    }
}

} // verus!
