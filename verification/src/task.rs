//! Operations as resumable tasks.
//!
//! An operation of the driver is a plan: a list of steps, each one access to a line
//! together with the error that the operation gives when that access fails. A
//! [`Task`] runs a plan. It names the next access, takes the shell's reply, and
//! either goes on to the following step or ends with the step's error: no later
//! step is attempted once an access has failed, and no earlier one is undone.

use vstd::prelude::*;
use crate::bridge::{remap, remap_spec};
use crate::driver::MotorDriverError;
use crate::signal::{Action, Line, Reply};

verus! {

/// What a step of a plan asks for.
#[derive(Clone, Copy, Debug, PartialEq, Eq)]
pub enum Command {
    /// The access as it stands.
    Access(Action),
    /// Set the duty of `line` to `percent` percent of the way from `min_duty` to the
    /// channel maximum that the task read last.
    Scale { line: Line, percent: u8, min_duty: u16 },
}

/// One step of a plan.
#[derive(Clone, Copy, Debug, PartialEq, Eq)]
pub struct Step {
    pub command: Command,
    /// The error of the operation when this step's access fails.
    pub error: MotorDriverError,
}

/// What a task or probe wants next.
#[derive(Debug, PartialEq, Eq)]
pub enum Poll<T> {
    /// The shell is to perform this access and hand back the reply.
    Perform(Action),
    /// Nothing is left to do; this is the operation's result.
    Finished(Result<T, MotorDriverError>),
}

/// What a reply means for the step that asked for the access.
#[derive(Clone, Copy, Debug, PartialEq, Eq)]
pub enum Verdict {
    /// The access went through; the task moves to the following step.
    Proceed,
    /// The channel maximum was read; the task keeps it and moves on.
    Measured(u16),
    /// The operation ends with this error.
    Failed(MotorDriverError),
}

impl Command {
    /// The access that the command comes to when the channel maximum read last is
    /// `max_duty`.
    pub open spec fn action_spec(self, max_duty: u16) -> Action {
        match self {
            Command::Access(action) => action,
            Command::Scale { line, percent, min_duty } => Action::SetDutyCycle(
                line,
                remap_spec(percent, min_duty, max_duty),
            ),
        }
    }

    /// The same command, for the line of bridge B that stands where its own line
    /// stands on bridge A.
    pub open spec fn on_bridge_b(self) -> Command {
        match self {
            Command::Access(action) => Command::Access(action.on_bridge_b()),
            Command::Scale { line, percent, min_duty } => Command::Scale {
                line: line.on_bridge_b(),
                percent,
                min_duty,
            },
        }
    }

    /// The access that the command comes to when the channel maximum read last is
    /// `max_duty`.
    pub fn action(self, max_duty: u16) -> (action: Action)
        ensures
            action == self.action_spec(max_duty),
    {
        match self {
            Command::Access(action) => action,
            Command::Scale { line, percent, min_duty } => Action::SetDutyCycle(
                line,
                remap(percent, min_duty, max_duty),
            ),
        }
    }
}

impl Step {
    /// A step whose failure is a `GpioError`.
    pub open spec fn gpio_spec(action: Action) -> Step {
        Step { command: Command::Access(action), error: MotorDriverError::GpioError }
    }

    /// A step whose failure is an `UnableToSetDuty`.
    pub open spec fn duty_spec(command: Command) -> Step {
        Step { command, error: MotorDriverError::UnableToSetDuty }
    }

    /// The same step, for the line of bridge B that stands where its own line
    /// stands on bridge A.
    pub open spec fn on_bridge_b(self) -> Step {
        Step { command: self.command.on_bridge_b(), error: self.error }
    }

    /// A step whose failure is a `GpioError`.
    pub fn gpio(action: Action) -> (step: Step)
        ensures
            step == Step::gpio_spec(action),
    {
        Step { command: Command::Access(action), error: MotorDriverError::GpioError }
    }

    /// A step whose failure is an `UnableToSetDuty`.
    pub fn duty(command: Command) -> (step: Step)
        ensures
            step == Step::duty_spec(command),
    {
        Step { command, error: MotorDriverError::UnableToSetDuty }
    }
}

/// Judges the reply to `action`, for a step whose failure is `error`.
///
/// A read of the channel maximum is answered by the maximum, every other access of
/// a task by `Done`. `Locked` gives `PwmLocked` whatever was asked; any other reply
/// gives the step's own error.
pub open spec fn judge_spec(action: Action, reply: Reply, error: MotorDriverError) -> Verdict {
    match reply {
        Reply::Locked => Verdict::Failed(MotorDriverError::PwmLocked),
        Reply::MaxDutyCycle(max_duty) => if action is MaxDutyCycle {
            Verdict::Measured(max_duty)
        } else {
            Verdict::Failed(error)
        },
        Reply::Done => if action is MaxDutyCycle || action is IsLow {
            Verdict::Failed(error)
        } else {
            Verdict::Proceed
        },
        Reply::Failed => Verdict::Failed(error),
        Reply::IsLow(_) => Verdict::Failed(error),
    }
}

/// Judges the reply to `action`, for a step whose failure is `error`.
pub fn judge(action: Action, reply: Reply, error: MotorDriverError) -> (verdict: Verdict)
    ensures
        verdict == judge_spec(action, reply, error),
{
    match reply {
        Reply::Locked => Verdict::Failed(MotorDriverError::PwmLocked),
        Reply::MaxDutyCycle(max_duty) => match action {
            Action::MaxDutyCycle(_) => Verdict::Measured(max_duty),
            _ => Verdict::Failed(error),
        },
        Reply::Done => match action {
            Action::MaxDutyCycle(_) => Verdict::Failed(error),
            Action::IsLow(_) => Verdict::Failed(error),
            _ => Verdict::Proceed,
        },
        Reply::Failed => Verdict::Failed(error),
        Reply::IsLow(_) => Verdict::Failed(error),
    }
}

/// The state of a task as a plain value.
pub struct TaskView {
    /// The plan.
    pub steps: Seq<Step>,
    /// How many steps have gone through.
    pub next: nat,
    /// The channel maximum read last, 0 before the first such read.
    pub max_duty: u16,
    /// The error that ended the task, if one did.
    pub failure: Option<MotorDriverError>,
}

impl TaskView {
    /// The task that has `steps` before it and nothing behind it.
    pub open spec fn fresh(steps: Seq<Step>) -> TaskView {
        TaskView { steps, next: 0, max_duty: 0, failure: None }
    }

    /// Whether an access is still to be performed.
    pub open spec fn running(self) -> bool {
        self.failure is None && self.next < self.steps.len()
    }

    /// What the task wants next: the access of the first step that has not gone
    /// through, or its result once it has failed or run out of steps.
    pub open spec fn poll(self) -> Poll<()> {
        if self.failure is Some {
            Poll::Finished(Err(self.failure.unwrap()))
        } else if self.next < self.steps.len() {
            Poll::Perform(self.steps[self.next as int].command.action_spec(self.max_duty))
        } else {
            Poll::Finished(Ok(()))
        }
    }

    /// The task after the shell's reply to the access that `poll` named. A task that
    /// is not running ignores the reply.
    pub open spec fn resume(self, reply: Reply) -> TaskView {
        if self.running() {
            let step = self.steps[self.next as int];
            match judge_spec(step.command.action_spec(self.max_duty), reply, step.error) {
                Verdict::Proceed => TaskView { next: self.next + 1, ..self },
                Verdict::Measured(max_duty) => TaskView { next: self.next + 1, max_duty, ..self },
                Verdict::Failed(error) => TaskView { failure: Some(error), ..self },
            }
        } else {
            self
        }
    }
}

/// Whether every step of `plan` is a write to one of the digital outputs `pins` or an
/// access to one of the PWM channels `channels`. The shell that holds such pins and
/// channels can perform whatever a task on `plan` asks for.
pub open spec fn plan_stays_on(plan: Seq<Step>, pins: Set<Line>, channels: Set<Line>) -> bool {
    forall|i: int, max_duty: u16|
        0 <= i < plan.len() ==> {
            let action = #[trigger] plan[i].command.action_spec(max_duty);
            ||| action.is_pin_write() && pins.contains(action.line())
            ||| action.is_channel_access() && channels.contains(action.line())
        }
}

/// How many accesses `task` can still ask for: none once it has failed, else one
/// for each step that has not gone through.
pub open spec fn accesses_left(task: TaskView) -> nat {
    if task.running() {
        (task.steps.len() - task.next) as nat
    } else {
        0
    }
}

/// Every reply brings a running task nearer to its end: it either moves the task one
/// step on or ends it. So a task asks for at most as many accesses as its plan has
/// steps.
pub proof fn lemma_resume_advances(task: TaskView, reply: Reply)
    requires
        task.running(),
    ensures
        accesses_left(task.resume(reply)) < accesses_left(task),
        task.resume(reply).steps == task.steps,
        task.resume(reply).failure is None ==> task.resume(reply).next == task.next + 1,
{
}

/// A reply that `judge_spec` takes for a failure ends the task at once with the
/// error that it names: the error of the step, or `PwmLocked` where the line was
/// locked. No later step is asked for, whatever is replied afterwards, and the
/// steps that went through are not taken back.
pub proof fn lemma_failure_is_final(task: TaskView, reply: Reply, later: Reply)
    requires
        task.running(),
        judge_spec(task.poll()->Perform_0, reply, task.steps[task.next as int].error) is Failed,
    ensures
        task.resume(reply).poll() == Poll::Finished(
            Err::<(), _>(
                judge_spec(
                    task.poll()->Perform_0,
                    reply,
                    task.steps[task.next as int].error,
                )->Failed_0,
            ),
        ),
        reply is Failed ==> task.resume(reply).failure == Some(task.steps[task.next as int].error),
        reply is Locked ==> task.resume(reply).failure == Some(MotorDriverError::PwmLocked),
        task.resume(reply).steps == task.steps,
        task.resume(reply).next == task.next,
        task.resume(reply).resume(later) == task.resume(reply),
{
}

/// A plan in the course of being carried out.
pub struct Task {
    steps: Vec<Step>,
    next: usize,
    max_duty: u16,
    failure: Option<MotorDriverError>,
}

impl View for Task {
    type V = TaskView;

    closed spec fn view(&self) -> TaskView {
        TaskView {
            steps: self.steps@,
            next: self.next as nat,
            max_duty: self.max_duty,
            failure: self.failure,
        }
    }
}

impl Task {
    #[verifier::type_invariant]
    spec fn within_plan(&self) -> bool {
        self.next <= self.steps.len()
    }

    /// A task that is about to start on `steps`.
    pub fn new(steps: Vec<Step>) -> (task: Task)
        ensures
            task@ == TaskView::fresh(steps@),
    {
        Task { steps, next: 0, max_duty: 0, failure: None }
    }

    /// What the task wants next. Polling changes nothing: until `resume` is called,
    /// the answer stays the same.
    pub fn poll(&self) -> (poll: Poll<()>)
        ensures
            poll == self@.poll(),
    {
        proof {
            use_type_invariant(self);
        }
        match self.failure {
            Some(error) => Poll::Finished(Err(error)),
            None => if self.next < self.steps.len() {
                Poll::Perform(self.steps[self.next].command.action(self.max_duty))
            } else {
                Poll::Finished(Ok(()))
            },
        }
    }

    /// Takes the shell's reply to the access that `poll` named.
    pub fn resume(&mut self, reply: Reply)
        ensures
            final(self)@ == old(self)@.resume(reply),
    {
        proof {
            use_type_invariant(&*self);
        }
        if self.failure.is_none() && self.next < self.steps.len() {
            let step = self.steps[self.next];
            let action = step.command.action(self.max_duty);
            match judge(action, reply, step.error) {
                Verdict::Proceed => {
                    self.next = self.next + 1;
                },
                Verdict::Measured(max_duty) => {
                    self.max_duty = max_duty;
                    self.next = self.next + 1;
                },
                Verdict::Failed(error) => {
                    self.failure = Some(error);
                },
            }
        }
    }
}

/// A reading of the fault line in the course of being taken.
#[derive(Clone, Copy, Debug, PartialEq, Eq)]
pub enum Probe {
    /// No fault line is wired: there is nothing to read.
    Absent,
    /// The line is wired and has not been read yet.
    Pending,
    /// The reading, or the error that took its place.
    Read(Result<bool, MotorDriverError>),
}

impl Probe {
    /// What the probe wants next. With no fault line the answer is "not faulty" at
    /// once, with no access at all.
    pub open spec fn poll_spec(self) -> Poll<bool> {
        match self {
            Probe::Absent => Poll::Finished(Ok(false)),
            Probe::Pending => Poll::Perform(Action::IsLow(Line::Fault)),
            Probe::Read(reading) => Poll::Finished(reading),
        }
    }

    /// The probe after the shell's reply to the read that `poll` named: faulty if
    /// and only if the line is low, and a `GpioError` for any reply that is no
    /// reading. Only a pending probe takes a reply.
    pub open spec fn resume_spec(self, reply: Reply) -> Probe {
        match self {
            Probe::Pending => match reply {
                Reply::IsLow(low) => Probe::Read(Ok(low)),
                _ => Probe::Read(Err(MotorDriverError::GpioError)),
            },
            _ => self,
        }
    }

    /// What the probe wants next.
    pub fn poll(&self) -> (poll: Poll<bool>)
        ensures
            poll == self.poll_spec(),
    {
        match self {
            Probe::Absent => Poll::Finished(Ok(false)),
            Probe::Pending => Poll::Perform(Action::IsLow(Line::Fault)),
            Probe::Read(reading) => Poll::Finished(*reading),
        }
    }

    /// Takes the shell's reply to the read that `poll` named.
    pub fn resume(&mut self, reply: Reply)
        ensures
            *final(self) == old(self).resume_spec(reply),
    {
        match self {
            Probe::Pending => {
                let reading = match reply {
                    Reply::IsLow(low) => Ok(low),
                    _ => Err(MotorDriverError::GpioError),
                };
                *self = Probe::Read(reading);
            },
            _ => {},
        }
    }
}

} // verus!
