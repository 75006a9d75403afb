//! The vocabulary between the driver core and the shell that touches the pins:
//! which line, which access, and what came of it.

use vstd::prelude::*;

verus! {

/// A line between the controller and the chip.
///
/// A bridge addresses its own two inputs as `In1` and `In2`. A driver of both
/// bridges addresses those of bridge A as `In1` and `In2` and those of bridge B as
/// `In3` and `In4`.
#[derive(Clone, Copy, Debug, PartialEq, Eq, Hash)]
pub enum Line {
    In1,
    In2,
    In3,
    In4,
    /// The sleep (enable) input: a digital output of the controller, or a PWM channel
    /// in the modes that put the duty on it.
    Sleep,
    /// The fault output of the chip, low while it reports a fault.
    Fault,
}

/// The level of a digital line.
#[derive(Clone, Copy, Debug, PartialEq, Eq, Hash)]
pub enum Level {
    Low,
    High,
}

/// One access to one line. Each variant stands for the operation of the same name
/// on an `embedded-hal` output pin, input pin or PWM channel.
#[derive(Clone, Copy, Debug, PartialEq, Eq, Hash)]
pub enum Action {
    /// Drive a digital output low.
    SetLow(Line),
    /// Drive a digital output high.
    SetHigh(Line),
    /// Set a PWM channel to 0 %, always inactive.
    SetDutyCycleFullyOff(Line),
    /// Set a PWM channel to 100 %, always active.
    SetDutyCycleFullyOn(Line),
    /// Set a PWM channel to the given duty, out of the channel's maximum.
    SetDutyCycle(Line, u16),
    /// Set a PWM channel to the given percentage of its maximum. The core issues
    /// this with a percentage of at most 100 only.
    SetDutyCyclePercent(Line, u8),
    /// Read the duty that stands for 100 % on a PWM channel.
    MaxDutyCycle(Line),
    /// Read whether a digital input is low.
    IsLow(Line),
}

/// What the shell reports of the access it was asked for.
#[derive(Clone, Copy, Debug, PartialEq, Eq, Hash)]
pub enum Reply {
    /// A write went through.
    Done,
    /// The pin or channel reported an error.
    Failed,
    /// The line is shared and its lock could not be taken; nothing was accessed.
    Locked,
    /// The answer to `Action::MaxDutyCycle`.
    MaxDutyCycle(u16),
    /// The answer to `Action::IsLow`.
    IsLow(bool),
}

impl Line {
    /// The line of bridge B that stands where `self` stands on bridge A: `In3` for
    /// `In1` and `In4` for `In2`. The other lines belong to no bridge and stay.
    pub open spec fn on_bridge_b(self) -> Line {
        match self {
            Line::In1 => Line::In3,
            Line::In2 => Line::In4,
            other => other,
        }
    }
}

impl Action {
    /// The line that the access goes to.
    pub open spec fn line_spec(self) -> Line {
        match self {
            Action::SetLow(line) => line,
            Action::SetHigh(line) => line,
            Action::SetDutyCycleFullyOff(line) => line,
            Action::SetDutyCycleFullyOn(line) => line,
            Action::SetDutyCycle(line, _) => line,
            Action::SetDutyCyclePercent(line, _) => line,
            Action::MaxDutyCycle(line) => line,
            Action::IsLow(line) => line,
        }
    }

    /// The line that the access goes to.
    #[verifier::when_used_as_spec(line_spec)]
    pub fn line(self) -> (line: Line)
        ensures
            line == self.line_spec(),
    {
        match self {
            Action::SetLow(line) => line,
            Action::SetHigh(line) => line,
            Action::SetDutyCycleFullyOff(line) => line,
            Action::SetDutyCycleFullyOn(line) => line,
            Action::SetDutyCycle(line, _) => line,
            Action::SetDutyCyclePercent(line, _) => line,
            Action::MaxDutyCycle(line) => line,
            Action::IsLow(line) => line,
        }
    }

    /// Whether the access is a write to a digital output.
    pub open spec fn is_pin_write(self) -> bool {
        self is SetLow || self is SetHigh
    }

    /// Whether the access is one that a PWM channel performs.
    pub open spec fn is_channel_access(self) -> bool {
        self is SetDutyCycleFullyOff || self is SetDutyCycleFullyOn || self is SetDutyCycle
            || self is SetDutyCyclePercent || self is MaxDutyCycle
    }

    /// The same access, to the line of bridge B that stands where its own line
    /// stands on bridge A.
    pub open spec fn on_bridge_b(self) -> Action {
        match self {
            Action::SetLow(line) => Action::SetLow(line.on_bridge_b()),
            Action::SetHigh(line) => Action::SetHigh(line.on_bridge_b()),
            Action::SetDutyCycleFullyOff(line) => Action::SetDutyCycleFullyOff(line.on_bridge_b()),
            Action::SetDutyCycleFullyOn(line) => Action::SetDutyCycleFullyOn(line.on_bridge_b()),
            Action::SetDutyCycle(line, duty) => Action::SetDutyCycle(line.on_bridge_b(), duty),
            Action::SetDutyCyclePercent(line, percent) => Action::SetDutyCyclePercent(
                line.on_bridge_b(),
                percent,
            ),
            Action::MaxDutyCycle(line) => Action::MaxDutyCycle(line.on_bridge_b()),
            Action::IsLow(line) => Action::IsLow(line.on_bridge_b()),
        }
    }

    /// The write that puts a digital line at `level`.
    pub open spec fn set_spec(line: Line, level: Level) -> Action {
        match level {
            Level::Low => Action::SetLow(line),
            Level::High => Action::SetHigh(line),
        }
    }

    /// The write that puts a digital line at `level`.
    pub fn set(line: Line, level: Level) -> (action: Action)
        ensures
            action == Action::set_spec(line, level),
    {
        match level {
            Level::Low => Action::SetLow(line),
            Level::High => Action::SetHigh(line),
        }
    }
}

} // verus!
