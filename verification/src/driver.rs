//! The error type, the operation traits and the mode wrapper.

use vstd::prelude::*;
use crate::board::{settle, Board};
use crate::parallel_driver::ParallelDriver;
use crate::pwm_parallel_driver::PwmParallelDriver;
use crate::pwm_split_driver::PwmSplitDriver;
use crate::signal::{Action, Level, Line};
use crate::split_driver::SplitDriver;
use crate::task::{plan_stays_on, Command, Poll, Probe, Step, Task, TaskView};

verus! {

/// Everything that can go wrong while the chip is driven.
#[derive(Clone, Copy, Debug, PartialEq, Eq, Hash)]
pub enum MotorDriverError {
    /// A digital pin could not be set or read.
    GpioError,
    /// A PWM channel did not take the duty.
    UnableToSetDuty,
    /// The lock of the shared PWM channel could not be taken.
    PwmLocked,
    /// A duty percentage was not within 0 to 100.
    InvalidRange,
}

/// Implemented by every drive mode.
pub trait Driver {
}

/// A PWM channel on the sleep line, in place of a digital pin: the duty on it sets
/// the speed of both bridges.
pub struct PwmSleep<PWM> {
    pub channel: PWM,
}

/// Stands in the sleep place of a mode whose driver holds the sleep line itself.
pub struct HeldByDriver;

/// The chip in one of its drive modes: the mode's driver, what is wired to the
/// sleep line, and the fault line if one is wired.
///
/// Five modes can be made:
///
/// - `new_split`: each bridge by itself, fully on or off.
/// - `new_parallel`: both bridges as one, for twice the current.
/// - `new_pwm_split`: each bridge by itself, at its own speed.
/// - `new_pwm_split_single`: each bridge by itself, with one speed for both on the
///   sleep line.
/// - `new_pwm_parallel`: both bridges as one, with the speed on the sleep line.
///
/// Sleep and fault are no business of the bridges: the tasks of `sleep` and
/// `wakeup` touch the sleep line only, and `is_faulty` reads the fault line only.
pub struct MotorDriver<DRIVER: Driver, SLEEP, FAULT> {
    pub driver: DRIVER,
    pub sleep: SLEEP,
    pub fault: Option<FAULT>,
}

impl<DRIVER: Driver, SLEEP, FAULT> core::ops::Deref for MotorDriver<DRIVER, SLEEP, FAULT> {
    type Target = DRIVER;

    /// The mode's driver, so that its operations can be called on the whole.
    fn deref(&self) -> (driver: &DRIVER)
        ensures
            *driver == self.driver,
    {
        &self.driver
    }
}

impl<DRIVER: Driver, SLEEP, FAULT> core::ops::DerefMut for MotorDriver<DRIVER, SLEEP, FAULT> {
    /// The mode's driver, to be changed in place. The sleep and fault lines stay.
    fn deref_mut(&mut self) -> (driver: &mut DRIVER)
        ensures
            *driver == old(self).driver,
            final(self).driver == *final(driver),
            final(self).sleep == old(self).sleep,
            final(self).fault == old(self).fault,
    {
        &mut self.driver
    }
}

/// The chip in split mode.
pub type SplitDriverType<IN1, IN2, IN3, IN4, SLEEP, FAULT> = MotorDriver<
    SplitDriver<IN1, IN2, IN3, IN4>,
    Option<SLEEP>,
    FAULT,
>;

/// The chip in parallel mode.
pub type ParallelDriverType<IN1, IN2, IN3, IN4, SLEEP, FAULT> = MotorDriver<
    ParallelDriver<IN1, IN2, IN3, IN4>,
    Option<SLEEP>,
    FAULT,
>;

/// The chip in PWM split mode.
pub type PwmSplitDriverType<IN1, IN2, IN3, IN4, SLEEP, FAULT> = MotorDriver<
    PwmSplitDriver<IN1, IN2, IN3, IN4>,
    Option<SLEEP>,
    FAULT,
>;

/// The chip in PWM split single mode.
pub type PwmSplitSingleDriverType<IN1, IN2, IN3, IN4, PWM, FAULT> = MotorDriver<
    SplitDriver<IN1, IN2, IN3, IN4>,
    PwmSleep<PWM>,
    FAULT,
>;

/// The chip in PWM parallel mode.
pub type PwmParallelDriverType<IN1, IN2, IN3, IN4, PWM, FAULT> = MotorDriver<
    PwmParallelDriver<IN1, IN2, IN3, IN4, PWM>,
    HeldByDriver,
    FAULT,
>;

impl<IN1, IN2, IN3, IN4, SLEEP, FAULT> SplitDriverType<IN1, IN2, IN3, IN4, SLEEP, FAULT> {
    /// The chip in split mode: four digital inputs, each bridge driven by itself.
    pub fn new_split(
        in1: IN1,
        in2: IN2,
        in3: IN3,
        in4: IN4,
        sleep: Option<SLEEP>,
        fault: Option<FAULT>,
    ) -> (motor: Self)
        ensures
            motor.driver.a.in1 == in1,
            motor.driver.a.in2 == in2,
            motor.driver.b.in1 == in3,
            motor.driver.b.in2 == in4,
            motor.sleep == sleep,
            motor.fault == fault,
    {
        MotorDriver { driver: SplitDriver::new(in1, in2, in3, in4), sleep, fault }
    }
}

impl<IN1, IN2, IN3, IN4, SLEEP, FAULT> PwmSplitDriverType<IN1, IN2, IN3, IN4, SLEEP, FAULT> {
    /// The chip in PWM split mode: four PWM inputs, each bridge driven by itself at
    /// its own speed, from a minimum duty of 0. This takes four channels; where
    /// they are scarce, `new_pwm_parallel` takes one and gives up the separate
    /// control of the bridges.
    pub fn new_pwm_split(
        in1: IN1,
        in2: IN2,
        in3: IN3,
        in4: IN4,
        sleep: Option<SLEEP>,
        fault: Option<FAULT>,
    ) -> (motor: Self)
        ensures
            motor.driver.a.bridge.in1 == in1,
            motor.driver.a.bridge.in2 == in2,
            motor.driver.a.min_duty == 0,
            motor.driver.b.bridge.in1 == in3,
            motor.driver.b.bridge.in2 == in4,
            motor.driver.b.min_duty == 0,
            motor.sleep == sleep,
            motor.fault == fault,
    {
        MotorDriver { driver: PwmSplitDriver::new(in1, in2, in3, in4), sleep, fault }
    }
}

impl<IN1, IN2, IN3, IN4, SLEEP, FAULT> ParallelDriverType<IN1, IN2, IN3, IN4, SLEEP, FAULT> {
    /// The chip in parallel mode: four digital inputs, both bridges driven alike.
    /// With `in1` wired to `in3` and `in2` to `in4` the outputs give twice the
    /// current.
    pub fn new_parallel(
        in1: IN1,
        in2: IN2,
        in3: IN3,
        in4: IN4,
        sleep: Option<SLEEP>,
        fault: Option<FAULT>,
    ) -> (motor: Self)
        ensures
            motor.driver.a.in1 == in1,
            motor.driver.a.in2 == in2,
            motor.driver.b.in1 == in3,
            motor.driver.b.in2 == in4,
            motor.sleep == sleep,
            motor.fault == fault,
    {
        MotorDriver { driver: ParallelDriver::new(in1, in2, in3, in4), sleep, fault }
    }
}

impl<IN1, IN2, IN3, IN4, PWM, FAULT> PwmParallelDriverType<IN1, IN2, IN3, IN4, PWM, FAULT> {
    /// The chip in PWM parallel mode: four digital inputs, both bridges driven
    /// alike, and one PWM channel for the speed of both, from a minimum duty of 0.
    /// The driver holds the channel.
    pub fn new_pwm_parallel(
        in1: IN1,
        in2: IN2,
        in3: IN3,
        in4: IN4,
        pwm: PWM,
        fault: Option<FAULT>,
    ) -> (motor: Self)
        ensures
            motor.driver.split.a.in1 == in1,
            motor.driver.split.a.in2 == in2,
            motor.driver.split.b.in1 == in3,
            motor.driver.split.b.in2 == in4,
            motor.driver.pwm == pwm,
            motor.driver.min_duty == 0,
            motor.fault == fault,
    {
        MotorDriver {
            driver: PwmParallelDriver::new(in1, in2, in3, in4, pwm),
            sleep: HeldByDriver,
            fault,
        }
    }
}

impl<IN1, IN2, IN3, IN4, PWM, FAULT> PwmSplitSingleDriverType<IN1, IN2, IN3, IN4, PWM, FAULT> {
    /// The chip in PWM split single mode: four digital inputs, each bridge driven by
    /// itself, and one PWM channel on the sleep line for the speed of both, which
    /// saves channels.
    pub fn new_pwm_split_single(
        in1: IN1,
        in2: IN2,
        in3: IN3,
        in4: IN4,
        pwm: PWM,
        fault: Option<FAULT>,
    ) -> (motor: Self)
        ensures
            motor.driver.a.in1 == in1,
            motor.driver.a.in2 == in2,
            motor.driver.b.in1 == in3,
            motor.driver.b.in2 == in4,
            motor.sleep.channel == pwm,
            motor.fault == fault,
    {
        MotorDriver {
            driver: SplitDriver::new(in1, in2, in3, in4),
            sleep: PwmSleep { channel: pwm },
            fault,
        }
    }
}

/// The plan that sets the channel on the sleep line to `percent` of its maximum: one
/// access, whose failure is an `UnableToSetDuty`.
pub open spec fn sleep_duty_plan(percent: u8) -> Seq<Step> {
    seq![Step::duty_spec(Command::Access(Action::SetDutyCyclePercent(Line::Sleep, percent)))]
}

impl<DRIVER: Driver, PWM, FAULT> MotorDriver<DRIVER, PwmSleep<PWM>, FAULT> {
    /// Sets the channel on the sleep line to `percent` of its maximum. A percentage
    /// above 100 is refused before the channel is touched; a channel that does not
    /// take the duty gives `UnableToSetDuty`.
    pub fn set_duty_cycle(&self, percent: u8) -> (result: Result<Task, MotorDriverError>)
        ensures
            percent > 100 ==> result == Err::<Task, _>(MotorDriverError::InvalidRange),
            percent <= 100 ==> result is Ok && result.unwrap()@ == TaskView::fresh(
                sleep_duty_plan(percent),
            ),
    {
        if percent > 100 {
            return Err(MotorDriverError::InvalidRange);
        }
        let steps = vec![
            Step::duty(Command::Access(Action::SetDutyCyclePercent(Line::Sleep, percent))),
        ];
        assert(steps@ =~= sleep_duty_plan(percent));
        Ok(Task::new(steps))
    }
}

/// On a board where the channel takes the duty, `set_duty_cycle` at a valid
/// percentage leaves the channel on the sleep line at that percentage of its
/// maximum, rounded down, and changes nothing else. The task asks for nothing but
/// that one access.
pub proof fn lemma_set_duty_cycle_scales(percent: u8, board: Board)
    requires
        percent <= 100,
    ensures
        ({
            let plan = sleep_duty_plan(percent);
            let after = settle(TaskView::fresh(plan), board);
            &&& plan_stays_on(plan, Set::empty(), set![Line::Sleep])
            &&& after.task.poll() == Poll::Finished(Ok::<(), MotorDriverError>(()))
            &&& after.board == (Board {
                duty: board.duty.insert(
                    Line::Sleep,
                    percent * board.max_duty[Line::Sleep] / 100,
                ),
                ..board
            })
        }),
{
    reveal_with_fuel(settle, 2);
}

impl<DRIVER: Driver, SLEEP, FAULT> MotorDriver<DRIVER, Option<SLEEP>, FAULT> {
    /// The steps of `sleep`: the sleep line low where one is wired, nothing where
    /// none is.
    pub open spec fn sleep_plan(&self) -> Seq<Step> {
        if self.sleep is Some {
            seq![Step::gpio_spec(Action::SetLow(Line::Sleep))]
        } else {
            Seq::empty()
        }
    }

    /// The steps of `wakeup`: the sleep line high where one is wired, nothing where
    /// none is.
    pub open spec fn wakeup_plan(&self) -> Seq<Step> {
        if self.sleep is Some {
            seq![Step::gpio_spec(Action::SetHigh(Line::Sleep))]
        } else {
            Seq::empty()
        }
    }

    /// Puts the chip to sleep: the bridges are disabled, the charge pump stops, the
    /// logic is reset and the clocks halt. The inputs are ignored until `wakeup`.
    /// With no sleep line the task is done before it starts.
    pub fn sleep(&self) -> (task: Task)
        ensures
            task@ == TaskView::fresh(self.sleep_plan()),
    {
        let mut steps: Vec<Step> = Vec::new();
        if self.sleep.is_some() {
            steps.push(Step::gpio(Action::SetLow(Line::Sleep)));
        }
        assert(steps@ =~= self.sleep_plan());
        Task::new(steps)
    }

    /// Wakes the chip from sleep. With no sleep line the task is done before it
    /// starts.
    pub fn wakeup(&self) -> (task: Task)
        ensures
            task@ == TaskView::fresh(self.wakeup_plan()),
    {
        let mut steps: Vec<Step> = Vec::new();
        if self.sleep.is_some() {
            steps.push(Step::gpio(Action::SetHigh(Line::Sleep)));
        }
        assert(steps@ =~= self.wakeup_plan());
        Task::new(steps)
    }
}

/// Sleeping and waking leave the bridges alone. On a board where every write goes
/// through, `sleep` puts the sleep line low and `wakeup` puts it high where one is
/// wired, and neither changes anything else; with no sleep line neither changes
/// anything at all. Both end with success.
pub proof fn lemma_sleep_keeps_bridges<DRIVER: Driver, SLEEP, FAULT>(
    motor: MotorDriver<DRIVER, Option<SLEEP>, FAULT>,
    board: Board,
)
    ensures
        ({
            let asleep = settle(TaskView::fresh(motor.sleep_plan()), board);
            let awake = settle(TaskView::fresh(motor.wakeup_plan()), board);
            &&& asleep.task.poll() == Poll::Finished(Ok::<(), MotorDriverError>(()))
            &&& awake.task.poll() == Poll::Finished(Ok::<(), MotorDriverError>(()))
            &&& motor.sleep is Some ==> asleep.board == (Board {
                level: board.level.insert(Line::Sleep, Level::Low),
                ..board
            })
            &&& motor.sleep is Some ==> awake.board == (Board {
                level: board.level.insert(Line::Sleep, Level::High),
                ..board
            })
            &&& motor.sleep is None ==> asleep.board == board && awake.board == board
            &&& plan_stays_on(motor.sleep_plan(), set![Line::Sleep], Set::empty())
            &&& plan_stays_on(motor.wakeup_plan(), set![Line::Sleep], Set::empty())
        }),
{
    reveal_with_fuel(settle, 2);
}

impl<DRIVER: Driver, SLEEP, FAULT> MotorDriver<DRIVER, SLEEP, FAULT> {
    /// Asks whether the chip reports a fault (over-temperature, over-current): its
    /// fault line is low while it does. With no fault line wired the answer is "not
    /// faulty" and nothing is read.
    pub fn is_faulty(&self) -> (probe: Probe)
        ensures
            probe == if self.fault is Some {
                Probe::Pending
            } else {
                Probe::Absent
            },
            self.fault is None ==> probe.poll_spec() == Poll::Finished(
                Ok::<bool, MotorDriverError>(false),
            ),
            self.fault is Some ==> probe.poll_spec() == Poll::<bool>::Perform(
                Action::IsLow(Line::Fault),
            ),
    {
        if self.fault.is_some() {
            Probe::Pending
        } else {
            Probe::Absent
        }
    }
}

/// The chip is faulty exactly while its fault line is low. On a board where the read
/// goes through, the probe of a wired fault line ends with whether the line is low,
/// and the read leaves the board as it was. With no fault line the probe ends with
/// "not faulty" before anything is read.
pub proof fn lemma_fault_is_active_low<DRIVER: Driver, SLEEP, FAULT>(
    motor: MotorDriver<DRIVER, SLEEP, FAULT>,
    board: Board,
)
    ensures
        ({
            let probe = if motor.fault is Some {
                Probe::Pending
            } else {
                Probe::Absent
            };
            let read = Action::IsLow(Line::Fault);
            &&& motor.fault is None ==> probe.poll_spec() == Poll::Finished(
                Ok::<bool, MotorDriverError>(false),
            )
            &&& motor.fault is Some ==> probe.poll_spec() == Poll::<bool>::Perform(read)
            &&& motor.fault is Some ==> probe.resume_spec(board.reply(read)).poll_spec()
                == Poll::Finished(
                Ok::<bool, MotorDriverError>(board.level[Line::Fault] == Level::Low),
            )
            &&& board.after(read) == board
        }),
{
}

/// Direction control for a motor that is either fully driven or not at all.
pub trait Movement {
    /// The steps of `forward`, in the order in which they are taken.
    spec fn forward_plan(&self) -> Seq<Step>;

    /// The steps of `reverse`, in the order in which they are taken.
    spec fn reverse_plan(&self) -> Seq<Step>;

    /// Turns the motor forward.
    fn forward(&self) -> (task: Task)
        ensures
            task@ == TaskView::fresh(self.forward_plan()),
    ;

    /// Turns the motor in reverse.
    fn reverse(&self) -> (task: Task)
        ensures
            task@ == TaskView::fresh(self.reverse_plan()),
    ;
}

/// Direction control at a speed, for a motor driven through PWM.
///
/// The speed is a percentage. One above 100 is refused with `InvalidRange` before
/// any line is touched; it is never clamped.
pub trait PwmMovement {
    /// The steps of `forward` at a valid `percent`, in the order in which they are
    /// taken.
    spec fn forward_plan(&self, percent: u8) -> Seq<Step>;

    /// The steps of `reverse` at a valid `percent`, in the order in which they are
    /// taken.
    spec fn reverse_plan(&self, percent: u8) -> Seq<Step>;

    /// Turns the motor forward at `percent` of its speed.
    fn forward(&self, percent: u8) -> (result: Result<Task, MotorDriverError>)
        ensures
            percent > 100 ==> result == Err::<Task, _>(MotorDriverError::InvalidRange),
            percent <= 100 ==> result is Ok && result.unwrap()@ == TaskView::fresh(
                self.forward_plan(percent),
            ),
    ;

    /// Turns the motor in reverse at `percent` of its speed.
    fn reverse(&self, percent: u8) -> (result: Result<Task, MotorDriverError>)
        ensures
            percent > 100 ==> result == Err::<Task, _>(MotorDriverError::InvalidRange),
            percent <= 100 ==> result is Ok && result.unwrap()@ == TaskView::fresh(
                self.reverse_plan(percent),
            ),
    ;
}

/// The two ways to take the drive off a motor.
pub trait Breaks {
    /// The steps of `coast`, in the order in which they are taken.
    spec fn coast_plan(&self) -> Seq<Step>;

    /// The steps of `stop`, in the order in which they are taken.
    spec fn stop_plan(&self) -> Seq<Step>;

    /// Lets the motor spin freely: both inputs of a bridge off, so that the motor
    /// is cut from the driver and slows down by itself.
    fn coast(&self) -> (task: Task)
        ensures
            task@ == TaskView::fresh(self.coast_plan()),
    ;

    /// Brakes the motor: both inputs of a bridge on, so that the winding current
    /// decays fast and the motor halts at once.
    fn stop(&self) -> (task: Task)
        ensures
            task@ == TaskView::fresh(self.stop_plan()),
    ;
}

} // verus!
