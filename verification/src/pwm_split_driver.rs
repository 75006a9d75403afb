//! PWM split mode: the two bridges are driven one by one, each at its own speed.

use vstd::prelude::*;
use crate::bridge::PwmBridge;
use crate::driver::Driver;

verus! {

/// Both bridges, each with its own two PWM inputs, for two motors whose speeds are
/// set independently. Every operation is one of bridge `a` or of bridge `b` and
/// addresses that bridge's inputs as `In1` and `In2`.
pub struct PwmSplitDriver<IN1, IN2, IN3, IN4> {
    pub a: PwmBridge<IN1, IN2>,
    pub b: PwmBridge<IN3, IN4>,
}

impl<IN1, IN2, IN3, IN4> PwmSplitDriver<IN1, IN2, IN3, IN4> {
    /// Bridge A over `in1` and `in2`, bridge B over `in3` and `in4`, both with a
    /// minimum duty of 0.
    pub fn new(in1: IN1, in2: IN2, in3: IN3, in4: IN4) -> (driver: Self)
        ensures
            driver.a.bridge.in1 == in1,
            driver.a.bridge.in2 == in2,
            driver.a.min_duty == 0,
            driver.b.bridge.in1 == in3,
            driver.b.bridge.in2 == in4,
            driver.b.min_duty == 0,
    {
        Self { a: PwmBridge::new(in1, in2, 0), b: PwmBridge::new(in3, in4, 0) }
    }

    /// Changes the minimum duty of both bridges. The channels stay as they are.
    pub fn set_min_duty(&mut self, duty: u16)
        ensures
            final(self).a.min_duty == duty,
            final(self).b.min_duty == duty,
            final(self).a.bridge == old(self).a.bridge,
            final(self).b.bridge == old(self).b.bridge,
    {
        self.a.set_min_duty(duty);
        self.b.set_min_duty(duty);
    }
}

impl<IN1, IN2, IN3, IN4> Driver for PwmSplitDriver<IN1, IN2, IN3, IN4> {
}

} // verus!
