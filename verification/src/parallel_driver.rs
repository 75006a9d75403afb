//! Parallel mode: both bridges are driven alike, for one motor on the two outputs
//! wired together.

use vstd::prelude::*;
use crate::board::{settle, Board};
use crate::bridge::{pin_plan, pin_steps, Bridge, Motion};
use crate::driver::{Breaks, Driver, MotorDriverError, Movement};
use crate::signal::Line;
use crate::task::{plan_stays_on, Poll, Step, Task, TaskView};

verus! {

/// The plan that puts both bridges into `motion`: bridge A on `In1` and `In2`
/// first, then bridge B on `In3` and `In4`.
pub open spec fn paired_plan(motion: Motion) -> Seq<Step> {
    pin_plan(motion, Line::In1, Line::In2) + pin_plan(motion, Line::In3, Line::In4)
}

/// The steps that put both bridges into `motion`.
pub fn paired_steps(motion: Motion) -> (steps: Vec<Step>)
    ensures
        steps@ == paired_plan(motion),
{
    let mut steps = pin_steps(motion, Line::In1, Line::In2);
    let mut second = pin_steps(motion, Line::In3, Line::In4);
    steps.append(&mut second);
    steps
}

/// A paired plan drives bridge B exactly as it drives bridge A: its first half is
/// the plan of the one bridge, and its second half is the first with `In1` and `In2`
/// renamed to `In3` and `In4`.
pub proof fn lemma_paired_plan_mirrors(motion: Motion)
    ensures
        paired_plan(motion) == pin_plan(motion, Line::In1, Line::In2) + pin_plan(
            motion,
            Line::In1,
            Line::In2,
        ).map_values(|step: Step| step.on_bridge_b()),
{
    let half = pin_plan(motion, Line::In1, Line::In2);
    assert(pin_plan(motion, Line::In3, Line::In4) =~= half.map_values(
        |step: Step| step.on_bridge_b(),
    ));
}

/// A paired plan asks for nothing but writes to the four digital inputs.
pub proof fn lemma_paired_plan_stays_on_pins(motion: Motion)
    ensures
        plan_stays_on(
            paired_plan(motion),
            set![Line::In1, Line::In2, Line::In3, Line::In4],
            Set::empty(),
        ),
{
}

/// On a board where every write goes through, a paired plan ends with success and
/// leaves the inputs of both bridges at the motion's levels, so that `In3` stands
/// as `In1` does and `In4` as `In2`. Nothing else changes.
pub proof fn lemma_paired_sets_both_alike(motion: Motion, board: Board)
    ensures
        ({
            let after = settle(TaskView::fresh(paired_plan(motion)), board);
            &&& after.task.poll() == Poll::Finished(Ok::<(), MotorDriverError>(()))
            &&& after.board.level[Line::In3] == after.board.level[Line::In1]
            &&& after.board.level[Line::In4] == after.board.level[Line::In2]
            &&& after.board == (Board {
                level: board.level.insert(Line::In1, motion.levels_spec().0).insert(
                    Line::In2,
                    motion.levels_spec().1,
                ).insert(Line::In3, motion.levels_spec().0).insert(
                    Line::In4,
                    motion.levels_spec().1,
                ),
                ..board
            })
        }),
{
    reveal_with_fuel(settle, 5);
}

/// Both bridges as one: `in1` is wired to `in3` and `in2` to `in4`, which doubles
/// the current that the chip can give.
pub struct ParallelDriver<IN1, IN2, IN3, IN4> {
    pub a: Bridge<IN1, IN2>,
    pub b: Bridge<IN3, IN4>,
}

impl<IN1, IN2, IN3, IN4> ParallelDriver<IN1, IN2, IN3, IN4> {
    /// Bridge A over `in1` and `in2`, bridge B over `in3` and `in4`.
    pub fn new(in1: IN1, in2: IN2, in3: IN3, in4: IN4) -> (driver: Self)
        ensures
            driver.a.in1 == in1,
            driver.a.in2 == in2,
            driver.b.in1 == in3,
            driver.b.in2 == in4,
    {
        Self { a: Bridge::new(in1, in2), b: Bridge::new(in3, in4) }
    }
}

impl<IN1, IN2, IN3, IN4> Driver for ParallelDriver<IN1, IN2, IN3, IN4> {
}

impl<IN1, IN2, IN3, IN4> Movement for ParallelDriver<IN1, IN2, IN3, IN4> {
    /// Bridge A forward, then bridge B forward.
    open spec fn forward_plan(&self) -> Seq<Step> {
        paired_plan(Motion::Forward)
    }

    /// Bridge A in reverse, then bridge B in reverse.
    open spec fn reverse_plan(&self) -> Seq<Step> {
        paired_plan(Motion::Reverse)
    }

    fn forward(&self) -> (task: Task) {
        Task::new(paired_steps(Motion::Forward))
    }

    fn reverse(&self) -> (task: Task) {
        Task::new(paired_steps(Motion::Reverse))
    }
}

impl<IN1, IN2, IN3, IN4> Breaks for ParallelDriver<IN1, IN2, IN3, IN4> {
    /// Bridge A coasts, then bridge B.
    open spec fn coast_plan(&self) -> Seq<Step> {
        paired_plan(Motion::Coast)
    }

    /// Bridge A stops, then bridge B.
    open spec fn stop_plan(&self) -> Seq<Step> {
        paired_plan(Motion::Stop)
    }

    fn coast(&self) -> (task: Task) {
        Task::new(paired_steps(Motion::Coast))
    }

    fn stop(&self) -> (task: Task) {
        Task::new(paired_steps(Motion::Stop))
    }
}

/// Each of the four operations of the parallel driver does to bridge B, in the same
/// task, what it does to bridge A: the plan is that of bridge A followed by the
/// same steps on `In3` and `In4`.
pub proof fn lemma_parallel_mirrors_bridge<IN1, IN2, IN3, IN4>(
    driver: ParallelDriver<IN1, IN2, IN3, IN4>,
)
    ensures
        driver.forward_plan() == driver.a.forward_plan() + driver.a.forward_plan().map_values(
            |step: Step| step.on_bridge_b(),
        ),
        driver.reverse_plan() == driver.a.reverse_plan() + driver.a.reverse_plan().map_values(
            |step: Step| step.on_bridge_b(),
        ),
        driver.coast_plan() == driver.a.coast_plan() + driver.a.coast_plan().map_values(
            |step: Step| step.on_bridge_b(),
        ),
        driver.stop_plan() == driver.a.stop_plan() + driver.a.stop_plan().map_values(
            |step: Step| step.on_bridge_b(),
        ),
        driver.b.forward_plan() == driver.a.forward_plan(),
        driver.b.reverse_plan() == driver.a.reverse_plan(),
        driver.b.coast_plan() == driver.a.coast_plan(),
        driver.b.stop_plan() == driver.a.stop_plan(),
{
    lemma_paired_plan_mirrors(Motion::Forward);
    lemma_paired_plan_mirrors(Motion::Reverse);
    lemma_paired_plan_mirrors(Motion::Coast);
    lemma_paired_plan_mirrors(Motion::Stop);
}

} // verus!
