//! The percentage-to-duty mapping and the two kinds of bridge.

use vstd::prelude::*;
use crate::board::{settle, settle_failing, Board};
use crate::driver::{Breaks, MotorDriverError, Movement, PwmMovement};
use crate::signal::{Action, Level, Line};
use crate::task::{plan_stays_on, Command, Poll, Step, Task, TaskView};

verus! {

/// The duty that lies `value` percent of the way from `min` to `max`, as an exact
/// integer: the nearest one, a half rounding up. It is negative or above `u16::MAX`
/// only for a `value` over 100.
pub open spec fn remap_exact(value: u8, min: u16, max: u16) -> int {
    (100 * min + value * (max - min) + 50) / 100
}

/// `remap_exact`, held to the range of a duty value.
pub open spec fn remap_spec(value: u8, min: u16, max: u16) -> u16 {
    let exact = remap_exact(value, min, max);
    if exact < 0 {
        0
    } else if exact > u16::MAX {
        u16::MAX
    } else {
        exact as u16
    }
}

/// Maps a percentage onto the duty range from `min` (the lowest duty at which the
/// motor turns) to `max` (the channel's full duty), by linear interpolation.
///
/// The percentage is not validated here. One above 100 extrapolates, and the result
/// saturates at the bounds of `u16`.
pub fn remap(value: u8, min: u16, max: u16) -> (duty: u16)
    ensures
        duty == remap_spec(value, min, max),
{
    let span: i32 = max as i32 - min as i32;
    assert(-25_500_000 <= value * span <= 25_500_000) by (nonlinear_arith)
        requires
            0 <= value <= 255,
            -65535 <= span <= 65535,
    ;
    let scaled: i32 = 100 * (min as i32) + (value as i32) * span + 50;
    if scaled < 0 {
        0
    } else {
        let exact: i32 = scaled / 100;
        if exact > 65535 {
            u16::MAX
        } else {
            exact as u16
        }
    }
}

/// 0 % maps to `min` and 100 % to `max`, whatever the two are.
pub proof fn lemma_remap_endpoints(min: u16, max: u16)
    ensures
        remap_spec(0, min, max) == min,
        remap_spec(100, min, max) == max,
{
}

/// A percentage of at most 100 maps to a duty between `min` and `max`, whichever of
/// the two is the larger, and that duty is the exact one: nothing saturates.
pub proof fn lemma_remap_within(value: u8, min: u16, max: u16)
    requires
        value <= 100,
    ensures
        remap_spec(value, min, max) == remap_exact(value, min, max),
        min <= max ==> min <= remap_spec(value, min, max) <= max,
        max <= min ==> max <= remap_spec(value, min, max) <= min,
{
    let span = max - min;
    assert(min <= max ==> 0 <= value * span <= 100 * span) by (nonlinear_arith)
        requires
            0 <= value <= 100,
            span == max - min,
    ;
    assert(max <= min ==> 100 * span <= value * span <= 0) by (nonlinear_arith)
        requires
            0 <= value <= 100,
            span == max - min,
    ;
}

/// Where `min` is at most `max`, a larger percentage never maps to a smaller duty.
pub proof fn lemma_remap_monotonic(low: u8, high: u8, min: u16, max: u16)
    requires
        low <= high,
        min <= max,
    ensures
        remap_spec(low, min, max) <= remap_spec(high, min, max),
{
    let span = max - min;
    assert(low * span <= high * span) by (nonlinear_arith)
        requires
            low <= high,
            0 <= span,
    ;
}

/// What a motor on a bridge can be made to do.
#[derive(Clone, Copy, Debug, PartialEq, Eq, Hash)]
pub enum Motion {
    Forward,
    Reverse,
    Coast,
    Stop,
}

impl Motion {
    /// The levels of a bridge's first and second input under the motion: forward is
    /// high and low, reverse low and high, coast both low, stop both high.
    pub open spec fn levels_spec(self) -> (Level, Level) {
        match self {
            Motion::Forward => (Level::High, Level::Low),
            Motion::Reverse => (Level::Low, Level::High),
            Motion::Coast => (Level::Low, Level::Low),
            Motion::Stop => (Level::High, Level::High),
        }
    }

    /// The levels of a bridge's first and second input under the motion.
    pub fn levels(self) -> (levels: (Level, Level))
        ensures
            levels == self.levels_spec(),
    {
        match self {
            Motion::Forward => (Level::High, Level::Low),
            Motion::Reverse => (Level::Low, Level::High),
            Motion::Coast => (Level::Low, Level::Low),
            Motion::Stop => (Level::High, Level::High),
        }
    }
}

/// The plan that puts a bridge with the digital inputs `in1` and `in2` into
/// `motion`: the first input is written, then the second. A failed write is a
/// `GpioError`.
pub open spec fn pin_plan(motion: Motion, in1: Line, in2: Line) -> Seq<Step> {
    seq![
        Step::gpio_spec(Action::set_spec(in1, motion.levels_spec().0)),
        Step::gpio_spec(Action::set_spec(in2, motion.levels_spec().1)),
    ]
}

/// The steps that put a bridge with the digital inputs `in1` and `in2` into
/// `motion`.
pub fn pin_steps(motion: Motion, in1: Line, in2: Line) -> (steps: Vec<Step>)
    ensures
        steps@ == pin_plan(motion, in1, in2),
{
    let (first, second) = motion.levels();
    let steps = vec![Step::gpio(Action::set(in1, first)), Step::gpio(Action::set(in2, second))];
    assert(steps@ =~= pin_plan(motion, in1, in2));
    steps
}

/// One H-bridge with digital inputs: the two pins that turn its motor.
pub struct Bridge<IN1, IN2> {
    pub in1: IN1,
    pub in2: IN2,
}

impl<IN1, IN2> Bridge<IN1, IN2> {
    /// A bridge over the two pins.
    pub fn new(in1: IN1, in2: IN2) -> (bridge: Self)
        ensures
            bridge.in1 == in1,
            bridge.in2 == in2,
    {
        Self { in1, in2 }
    }
}

impl<IN1, IN2> Movement for Bridge<IN1, IN2> {
    /// First input high, then second input low.
    open spec fn forward_plan(&self) -> Seq<Step> {
        pin_plan(Motion::Forward, Line::In1, Line::In2)
    }

    /// First input low, then second input high.
    open spec fn reverse_plan(&self) -> Seq<Step> {
        pin_plan(Motion::Reverse, Line::In1, Line::In2)
    }

    fn forward(&self) -> (task: Task) {
        Task::new(pin_steps(Motion::Forward, Line::In1, Line::In2))
    }

    fn reverse(&self) -> (task: Task) {
        Task::new(pin_steps(Motion::Reverse, Line::In1, Line::In2))
    }
}

impl<IN1, IN2> Breaks for Bridge<IN1, IN2> {
    /// Both inputs low, the first one first.
    open spec fn coast_plan(&self) -> Seq<Step> {
        pin_plan(Motion::Coast, Line::In1, Line::In2)
    }

    /// Both inputs high, the first one first.
    open spec fn stop_plan(&self) -> Seq<Step> {
        pin_plan(Motion::Stop, Line::In1, Line::In2)
    }

    fn coast(&self) -> (task: Task) {
        Task::new(pin_steps(Motion::Coast, Line::In1, Line::In2))
    }

    fn stop(&self) -> (task: Task) {
        Task::new(pin_steps(Motion::Stop, Line::In1, Line::In2))
    }
}

/// A motion asks for nothing but writes to the bridge's two digital inputs.
pub proof fn lemma_pin_plan_stays_on_pins(motion: Motion, in1: Line, in2: Line)
    ensures
        plan_stays_on(pin_plan(motion, in1, in2), set![in1, in2], Set::empty()),
{
}

/// On a board where every write goes through, a motion leaves the bridge's two
/// inputs at the motion's levels and every other line as it was, whatever stood on
/// the board before. The task ends with success.
pub proof fn lemma_motion_sets_both(motion: Motion, in1: Line, in2: Line, board: Board)
    ensures
        settle(TaskView::fresh(pin_plan(motion, in1, in2)), board).task.poll() == Poll::Finished(
            Ok::<(), MotorDriverError>(()),
        ),
        settle(TaskView::fresh(pin_plan(motion, in1, in2)), board).board == (Board {
            level: board.level.insert(in1, motion.levels_spec().0).insert(
                in2,
                motion.levels_spec().1,
            ),
            ..board
        }),
{
    reveal_with_fuel(settle, 3);
}

/// A motion stops at the first write that fails and takes nothing back. Where the
/// first write fails, the task ends with `GpioError` and the board is as it was:
/// the second input is not written. Where the second write fails, the task ends
/// with `GpioError` and the first input stays at its new level.
pub proof fn lemma_motion_fails_fast(motion: Motion, in1: Line, in2: Line, board: Board)
    ensures
        ({
            let plan = pin_plan(motion, in1, in2);
            let first = settle_failing(TaskView::fresh(plan), board, 0);
            let second = settle_failing(TaskView::fresh(plan), board, 1);
            &&& first.task.poll() == Poll::Finished(
                Err::<(), _>(MotorDriverError::GpioError),
            )
            &&& first.board == board
            &&& second.task.poll() == Poll::Finished(
                Err::<(), _>(MotorDriverError::GpioError),
            )
            &&& second.board == (Board {
                level: board.level.insert(in1, motion.levels_spec().0),
                ..board
            })
        }),
{
    reveal_with_fuel(settle_failing, 3);
}

/// `forward` leaves the first input high and the second low; `reverse` after it
/// leaves the first low and the second high: each input takes the level that the
/// other one had, and no other line changes.
pub proof fn lemma_reverse_swaps_forward<IN1, IN2>(bridge: Bridge<IN1, IN2>, board: Board)
    ensures
        ({
            let forward = settle(TaskView::fresh(bridge.forward_plan()), board).board;
            let reverse = settle(TaskView::fresh(bridge.reverse_plan()), forward).board;
            &&& forward.level[Line::In1] == Level::High
            &&& forward.level[Line::In2] == Level::Low
            &&& reverse.level[Line::In1] == forward.level[Line::In2]
            &&& reverse.level[Line::In2] == forward.level[Line::In1]
            &&& reverse == (Board {
                level: board.level.insert(Line::In1, Level::Low).insert(Line::In2, Level::High),
                ..board
            })
        }),
{
    lemma_motion_sets_both(Motion::Forward, Line::In1, Line::In2, board);
    let forward = settle(TaskView::fresh(bridge.forward_plan()), board).board;
    lemma_motion_sets_both(Motion::Reverse, Line::In1, Line::In2, forward);
    let reverse = settle(TaskView::fresh(bridge.reverse_plan()), forward).board;
    assert(reverse.level =~= board.level.insert(Line::In1, Level::Low).insert(
        Line::In2,
        Level::High,
    ));
}

/// `coast` leaves both inputs low whatever they were before, and a second `coast`
/// changes nothing.
pub proof fn lemma_coast_is_idempotent<IN1, IN2>(bridge: Bridge<IN1, IN2>, board: Board)
    ensures
        ({
            let once = settle(TaskView::fresh(bridge.coast_plan()), board).board;
            let twice = settle(TaskView::fresh(bridge.coast_plan()), once).board;
            &&& once.level[Line::In1] == Level::Low
            &&& once.level[Line::In2] == Level::Low
            &&& twice == once
        }),
{
    lemma_motion_sets_both(Motion::Coast, Line::In1, Line::In2, board);
    let once = settle(TaskView::fresh(bridge.coast_plan()), board).board;
    lemma_motion_sets_both(Motion::Coast, Line::In1, Line::In2, once);
    let twice = settle(TaskView::fresh(bridge.coast_plan()), once).board;
    assert(twice.level =~= once.level);
}

/// `stop` leaves both inputs high whatever they were before, and a second `stop`
/// changes nothing.
pub proof fn lemma_stop_is_idempotent<IN1, IN2>(bridge: Bridge<IN1, IN2>, board: Board)
    ensures
        ({
            let once = settle(TaskView::fresh(bridge.stop_plan()), board).board;
            let twice = settle(TaskView::fresh(bridge.stop_plan()), once).board;
            &&& once.level[Line::In1] == Level::High
            &&& once.level[Line::In2] == Level::High
            &&& twice == once
        }),
{
    lemma_motion_sets_both(Motion::Stop, Line::In1, Line::In2, board);
    let once = settle(TaskView::fresh(bridge.stop_plan()), board).board;
    lemma_motion_sets_both(Motion::Stop, Line::In1, Line::In2, once);
    let twice = settle(TaskView::fresh(bridge.stop_plan()), once).board;
    assert(twice.level =~= once.level);
}

/// One H-bridge with PWM inputs: the two channels that turn its motor at a speed.
pub struct PwmBridge<IN1, IN2> {
    pub bridge: Bridge<IN1, IN2>,
    /// The duty that 0 % is mapped to: the lowest at which the motor turns.
    pub min_duty: u16,
}

impl<IN1, IN2> PwmBridge<IN1, IN2> {
    /// A bridge over the two channels, with `min_duty` as the duty of 0 %.
    pub fn new(in1: IN1, in2: IN2, min_duty: u16) -> (bridge: Self)
        ensures
            bridge.bridge.in1 == in1,
            bridge.bridge.in2 == in2,
            bridge.min_duty == min_duty,
    {
        Self { bridge: Bridge::new(in1, in2), min_duty }
    }

    /// Changes the duty that 0 % is mapped to. The channels stay as they are.
    pub fn set_min_duty(&mut self, duty: u16)
        ensures
            final(self).min_duty == duty,
            final(self).bridge == old(self).bridge,
    {
        self.min_duty = duty;
    }
}

impl<IN1, IN2> PwmMovement for PwmBridge<IN1, IN2> {
    /// The maximum of the first channel is read, the first channel is set to
    /// `remap(percent, min_duty, maximum)`, then the second channel is set fully
    /// off. A failure at any of them is an `UnableToSetDuty`.
    open spec fn forward_plan(&self, percent: u8) -> Seq<Step> {
        seq![
            Step::duty_spec(Command::Access(Action::MaxDutyCycle(Line::In1))),
            Step::duty_spec(
                Command::Scale { line: Line::In1, percent, min_duty: self.min_duty },
            ),
            Step::duty_spec(Command::Access(Action::SetDutyCycleFullyOff(Line::In2))),
        ]
    }

    /// The maximum of the second channel is read, the first channel is set fully
    /// off, then the second channel is set to `remap(percent, min_duty, maximum)`.
    /// A failure at any of them is an `UnableToSetDuty`.
    open spec fn reverse_plan(&self, percent: u8) -> Seq<Step> {
        seq![
            Step::duty_spec(Command::Access(Action::MaxDutyCycle(Line::In2))),
            Step::duty_spec(Command::Access(Action::SetDutyCycleFullyOff(Line::In1))),
            Step::duty_spec(
                Command::Scale { line: Line::In2, percent, min_duty: self.min_duty },
            ),
        ]
    }

    fn forward(&self, percent: u8) -> (result: Result<Task, MotorDriverError>) {
        if percent > 100 {
            return Err(MotorDriverError::InvalidRange);
        }
        let steps = vec![
            Step::duty(Command::Access(Action::MaxDutyCycle(Line::In1))),
            Step::duty(Command::Scale { line: Line::In1, percent, min_duty: self.min_duty }),
            Step::duty(Command::Access(Action::SetDutyCycleFullyOff(Line::In2))),
        ];
        assert(steps@ =~= self.forward_plan(percent));
        Ok(Task::new(steps))
    }

    fn reverse(&self, percent: u8) -> (result: Result<Task, MotorDriverError>) {
        if percent > 100 {
            return Err(MotorDriverError::InvalidRange);
        }
        let steps = vec![
            Step::duty(Command::Access(Action::MaxDutyCycle(Line::In2))),
            Step::duty(Command::Access(Action::SetDutyCycleFullyOff(Line::In1))),
            Step::duty(Command::Scale { line: Line::In2, percent, min_duty: self.min_duty }),
        ];
        assert(steps@ =~= self.reverse_plan(percent));
        Ok(Task::new(steps))
    }
}

impl<IN1, IN2> Breaks for PwmBridge<IN1, IN2> {
    /// Both channels fully off, the first one first. A failure is a `GpioError`.
    open spec fn coast_plan(&self) -> Seq<Step> {
        seq![
            Step::gpio_spec(Action::SetDutyCycleFullyOff(Line::In1)),
            Step::gpio_spec(Action::SetDutyCycleFullyOff(Line::In2)),
        ]
    }

    /// Both channels fully on, the first one first. A failure is a `GpioError`.
    open spec fn stop_plan(&self) -> Seq<Step> {
        seq![
            Step::gpio_spec(Action::SetDutyCycleFullyOn(Line::In1)),
            Step::gpio_spec(Action::SetDutyCycleFullyOn(Line::In2)),
        ]
    }

    fn coast(&self) -> (task: Task) {
        let steps = vec![
            Step::gpio(Action::SetDutyCycleFullyOff(Line::In1)),
            Step::gpio(Action::SetDutyCycleFullyOff(Line::In2)),
        ];
        assert(steps@ =~= self.coast_plan());
        Task::new(steps)
    }

    fn stop(&self) -> (task: Task) {
        let steps = vec![
            Step::gpio(Action::SetDutyCycleFullyOn(Line::In1)),
            Step::gpio(Action::SetDutyCycleFullyOn(Line::In2)),
        ];
        assert(steps@ =~= self.stop_plan());
        Task::new(steps)
    }
}

/// Every operation of a PWM bridge asks for nothing but accesses to its two
/// channels.
pub proof fn lemma_pwm_plans_stay_on_channels<IN1, IN2>(bridge: PwmBridge<IN1, IN2>, percent: u8)
    ensures
        plan_stays_on(bridge.forward_plan(percent), Set::empty(), set![Line::In1, Line::In2]),
        plan_stays_on(bridge.reverse_plan(percent), Set::empty(), set![Line::In1, Line::In2]),
        plan_stays_on(bridge.coast_plan(), Set::empty(), set![Line::In1, Line::In2]),
        plan_stays_on(bridge.stop_plan(), Set::empty(), set![Line::In1, Line::In2]),
{
}

/// On a board where every write goes through, `forward` at a valid percentage
/// leaves the first channel at `remap(percent, min_duty, maximum)`, with the
/// maximum that of the first channel, and the second channel at 0. `reverse` does
/// the same with the channels swapped.
pub proof fn lemma_pwm_movement_sets_both<IN1, IN2>(
    bridge: PwmBridge<IN1, IN2>,
    percent: u8,
    board: Board,
)
    requires
        percent <= 100,
    ensures
        ({
            let forward = settle(TaskView::fresh(bridge.forward_plan(percent)), board);
            let reverse = settle(TaskView::fresh(bridge.reverse_plan(percent)), board);
            &&& forward.task.poll() == Poll::Finished(Ok::<(), MotorDriverError>(()))
            &&& forward.board.duty == board.duty.insert(
                Line::In1,
                remap_spec(percent, bridge.min_duty, board.max_duty[Line::In1]) as int,
            ).insert(Line::In2, 0)
            &&& reverse.task.poll() == Poll::Finished(Ok::<(), MotorDriverError>(()))
            &&& reverse.board.duty == board.duty.insert(Line::In1, 0).insert(
                Line::In2,
                remap_spec(percent, bridge.min_duty, board.max_duty[Line::In2]) as int,
            )
            &&& forward.board.level == board.level
            &&& reverse.board.level == board.level
        }),
{
    reveal_with_fuel(settle, 4);
}

/// A movement of a PWM bridge stops at the first channel that does not take its duty
/// and takes nothing back. Where the first write of `forward` fails, the task ends
/// with `UnableToSetDuty`, and no duty on the board has changed: the second channel
/// is not written. Where its second write fails, the first channel stays at its new
/// duty.
pub proof fn lemma_pwm_forward_fails_fast<IN1, IN2>(
    bridge: PwmBridge<IN1, IN2>,
    percent: u8,
    board: Board,
)
    requires
        percent <= 100,
    ensures
        ({
            let plan = bridge.forward_plan(percent);
            let first = settle_failing(TaskView::fresh(plan), board, 1);
            let second = settle_failing(TaskView::fresh(plan), board, 2);
            &&& first.task.poll() == Poll::Finished(
                Err::<(), _>(MotorDriverError::UnableToSetDuty),
            )
            &&& first.board == board
            &&& second.task.poll() == Poll::Finished(
                Err::<(), _>(MotorDriverError::UnableToSetDuty),
            )
            &&& second.board == (Board {
                duty: board.duty.insert(
                    Line::In1,
                    remap_spec(percent, bridge.min_duty, board.max_duty[Line::In1]) as int,
                ),
                ..board
            })
        }),
{
    reveal_with_fuel(settle_failing, 4);
}

/// `coast` leaves both channels at 0 whatever they were before, and a second `coast`
/// changes nothing.
pub proof fn lemma_pwm_coast_is_idempotent<IN1, IN2>(bridge: PwmBridge<IN1, IN2>, board: Board)
    ensures
        ({
            let once = settle(TaskView::fresh(bridge.coast_plan()), board).board;
            let twice = settle(TaskView::fresh(bridge.coast_plan()), once).board;
            &&& once.duty[Line::In1] == 0
            &&& once.duty[Line::In2] == 0
            &&& twice == once
        }),
{
    reveal_with_fuel(settle, 3);
    let once = settle(TaskView::fresh(bridge.coast_plan()), board).board;
    let twice = settle(TaskView::fresh(bridge.coast_plan()), once).board;
    assert(twice.duty =~= once.duty);
}

/// `stop` leaves both channels at their maximum whatever they were before, and a
/// second `stop` changes nothing.
pub proof fn lemma_pwm_stop_is_idempotent<IN1, IN2>(bridge: PwmBridge<IN1, IN2>, board: Board)
    ensures
        ({
            let once = settle(TaskView::fresh(bridge.stop_plan()), board).board;
            let twice = settle(TaskView::fresh(bridge.stop_plan()), once).board;
            &&& once.duty[Line::In1] == board.max_duty[Line::In1]
            &&& once.duty[Line::In2] == board.max_duty[Line::In2]
            &&& twice == once
        }),
{
    reveal_with_fuel(settle, 3);
    let once = settle(TaskView::fresh(bridge.stop_plan()), board).board;
    let twice = settle(TaskView::fresh(bridge.stop_plan()), once).board;
    assert(twice.duty =~= once.duty);
}

} // verus!
