//! PWM parallel mode: both bridges are driven alike over four digital inputs, and
//! one PWM channel on the sleep line sets the speed of both.

use vstd::prelude::*;
use crate::board::{settle, Board};
use crate::bridge::{remap_spec, Motion};
use crate::driver::{Breaks, Driver, MotorDriverError, PwmMovement};
use crate::parallel_driver::{paired_plan, paired_steps};
use crate::signal::{Action, Line};
use crate::split_driver::SplitDriver;
use crate::task::{plan_stays_on, Command, Poll, Step, Task, TaskView};

verus! {

/// The plan that sets the shared channel to `percent`, which is at most 100.
///
/// 0 % is fully off and 100 % fully on, whatever the minimum duty. Anything between
/// reads the channel maximum and sets `remap(percent, min_duty, maximum)`. A failure
/// is an `UnableToSetDuty`.
pub open spec fn shared_duty_plan(percent: u8, min_duty: u16) -> Seq<Step> {
    if percent == 0 {
        seq![Step::duty_spec(Command::Access(Action::SetDutyCycleFullyOff(Line::Sleep)))]
    } else if percent == 100 {
        seq![Step::duty_spec(Command::Access(Action::SetDutyCycleFullyOn(Line::Sleep)))]
    } else {
        seq![
            Step::duty_spec(Command::Access(Action::MaxDutyCycle(Line::Sleep))),
            Step::duty_spec(Command::Scale { line: Line::Sleep, percent, min_duty }),
        ]
    }
}

/// The steps that set the shared channel to `percent`.
pub fn shared_duty_steps(percent: u8, min_duty: u16) -> (steps: Vec<Step>)
    ensures
        steps@ == shared_duty_plan(percent, min_duty),
{
    let steps = if percent == 0 {
        vec![Step::duty(Command::Access(Action::SetDutyCycleFullyOff(Line::Sleep)))]
    } else if percent == 100 {
        vec![Step::duty(Command::Access(Action::SetDutyCycleFullyOn(Line::Sleep)))]
    } else {
        vec![
            Step::duty(Command::Access(Action::MaxDutyCycle(Line::Sleep))),
            Step::duty(Command::Scale { line: Line::Sleep, percent, min_duty }),
        ]
    };
    assert(steps@ =~= shared_duty_plan(percent, min_duty));
    steps
}

/// The duty that the shared channel is left at by `percent`: 0 at 0 %, the channel
/// maximum at 100 %, and `remap(percent, min_duty, max_duty)` between the two.
pub open spec fn shared_duty(percent: u8, min_duty: u16, max_duty: u16) -> int {
    if percent == 0 {
        0
    } else if percent == 100 {
        max_duty as int
    } else {
        remap_spec(percent, min_duty, max_duty) as int
    }
}

/// Setting the shared duty asks for nothing but accesses to the channel on the sleep
/// line, and a movement or a brake after it for nothing but writes to the four
/// digital inputs besides.
pub proof fn lemma_shared_plans_stay_on_wiring(percent: u8, min_duty: u16, motion: Motion)
    ensures
        plan_stays_on(shared_duty_plan(percent, min_duty), Set::empty(), set![Line::Sleep]),
        plan_stays_on(
            shared_duty_plan(percent, min_duty) + paired_plan(motion),
            set![Line::In1, Line::In2, Line::In3, Line::In4],
            set![Line::Sleep],
        ),
{
}

/// On a board where every access goes through, the movement plan at a valid
/// percentage ends with success, leaves the shared channel at
/// `shared_duty(percent, ..)` and the inputs of both bridges at the motion's
/// levels, and changes nothing else.
pub proof fn lemma_shared_duty_then_both(percent: u8, min_duty: u16, motion: Motion, board: Board)
    requires
        percent <= 100,
    ensures
        ({
            let plan = shared_duty_plan(percent, min_duty) + paired_plan(motion);
            let after = settle(TaskView::fresh(plan), board);
            &&& after.task.poll() == Poll::Finished(Ok::<(), MotorDriverError>(()))
            &&& after.board == (Board {
                level: board.level.insert(Line::In1, motion.levels_spec().0).insert(
                    Line::In2,
                    motion.levels_spec().1,
                ).insert(Line::In3, motion.levels_spec().0).insert(
                    Line::In4,
                    motion.levels_spec().1,
                ),
                duty: board.duty.insert(
                    Line::Sleep,
                    shared_duty(percent, min_duty, board.max_duty[Line::Sleep]),
                ),
                ..board
            })
        }),
{
    reveal_with_fuel(settle, 7);
}

/// Both bridges as one, with the speed of both on a single PWM channel.
///
/// The channel is addressed as `Sleep`. Where the shell shares it behind a lock, it
/// answers an access with `Locked` when the lock cannot be taken, and the operation
/// ends with `PwmLocked`.
pub struct PwmParallelDriver<IN1, IN2, IN3, IN4, PWM> {
    pub pwm: PWM,
    pub split: SplitDriver<IN1, IN2, IN3, IN4>,
    /// The duty that the lowest speed is mapped to.
    pub min_duty: u16,
}

impl<IN1, IN2, IN3, IN4, PWM> PwmParallelDriver<IN1, IN2, IN3, IN4, PWM> {
    /// Bridge A over `in1` and `in2`, bridge B over `in3` and `in4`, the speed on
    /// `pwm`, with a minimum duty of 0.
    pub fn new(in1: IN1, in2: IN2, in3: IN3, in4: IN4, pwm: PWM) -> (driver: Self)
        ensures
            driver.split.a.in1 == in1,
            driver.split.a.in2 == in2,
            driver.split.b.in1 == in3,
            driver.split.b.in2 == in4,
            driver.pwm == pwm,
            driver.min_duty == 0,
    {
        Self { pwm, min_duty: 0, split: SplitDriver::new(in1, in2, in3, in4) }
    }

    /// Changes the minimum duty. The pins and the channel stay as they are.
    pub fn set_min_duty(&mut self, duty: u16)
        ensures
            final(self).min_duty == duty,
            final(self).pwm == old(self).pwm,
            final(self).split == old(self).split,
    {
        self.min_duty = duty;
    }

    /// Sets the shared channel to `percent` and leaves the bridges alone. A
    /// percentage above 100 is refused before any line is touched.
    pub fn set_duty_cycle_percent(&self, percent: u8) -> (result: Result<Task, MotorDriverError>)
        ensures
            percent > 100 ==> result == Err::<Task, _>(MotorDriverError::InvalidRange),
            percent <= 100 ==> result is Ok && result.unwrap()@ == TaskView::fresh(
                shared_duty_plan(percent, self.min_duty),
            ),
    {
        if percent > 100 {
            return Err(MotorDriverError::InvalidRange);
        }
        Ok(Task::new(shared_duty_steps(percent, self.min_duty)))
    }
}

impl<IN1, IN2, IN3, IN4, PWM> Driver for PwmParallelDriver<IN1, IN2, IN3, IN4, PWM> {
}

impl<IN1, IN2, IN3, IN4, PWM> PwmMovement for PwmParallelDriver<IN1, IN2, IN3, IN4, PWM> {
    /// The shared channel is set to `percent`, then bridge A goes forward, then
    /// bridge B.
    open spec fn forward_plan(&self, percent: u8) -> Seq<Step> {
        shared_duty_plan(percent, self.min_duty) + paired_plan(Motion::Forward)
    }

    /// The shared channel is set to `percent`, then bridge A goes in reverse, then
    /// bridge B.
    open spec fn reverse_plan(&self, percent: u8) -> Seq<Step> {
        shared_duty_plan(percent, self.min_duty) + paired_plan(Motion::Reverse)
    }

    fn forward(&self, percent: u8) -> (result: Result<Task, MotorDriverError>) {
        if percent > 100 {
            return Err(MotorDriverError::InvalidRange);
        }
        let mut steps = shared_duty_steps(percent, self.min_duty);
        let mut bridges = paired_steps(Motion::Forward);
        steps.append(&mut bridges);
        Ok(Task::new(steps))
    }

    fn reverse(&self, percent: u8) -> (result: Result<Task, MotorDriverError>) {
        if percent > 100 {
            return Err(MotorDriverError::InvalidRange);
        }
        let mut steps = shared_duty_steps(percent, self.min_duty);
        let mut bridges = paired_steps(Motion::Reverse);
        steps.append(&mut bridges);
        Ok(Task::new(steps))
    }
}

impl<IN1, IN2, IN3, IN4, PWM> Breaks for PwmParallelDriver<IN1, IN2, IN3, IN4, PWM> {
    /// The shared channel is set fully off, then bridge A coasts, then bridge B.
    open spec fn coast_plan(&self) -> Seq<Step> {
        shared_duty_plan(0, self.min_duty) + paired_plan(Motion::Coast)
    }

    /// The shared channel is set fully on, then bridge A stops, then bridge B.
    open spec fn stop_plan(&self) -> Seq<Step> {
        shared_duty_plan(100, self.min_duty) + paired_plan(Motion::Stop)
    }

    fn coast(&self) -> (task: Task) {
        let mut steps = shared_duty_steps(0, self.min_duty);
        let mut bridges = paired_steps(Motion::Coast);
        steps.append(&mut bridges);
        Task::new(steps)
    }

    fn stop(&self) -> (task: Task) {
        let mut steps = shared_duty_steps(100, self.min_duty);
        let mut bridges = paired_steps(Motion::Stop);
        steps.append(&mut bridges);
        Task::new(steps)
    }
}

} // verus!
