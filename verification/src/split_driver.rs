//! Split mode: the two bridges are driven one by one.

use vstd::prelude::*;
use crate::bridge::Bridge;
use crate::driver::Driver;

verus! {

/// Both bridges, each with its own two digital inputs, for two motors that are
/// driven independently. Every operation is one of bridge `a` or of bridge `b`
/// and addresses that bridge's inputs as `In1` and `In2`.
pub struct SplitDriver<IN1, IN2, IN3, IN4> {
    pub a: Bridge<IN1, IN2>,
    pub b: Bridge<IN3, IN4>,
}

impl<IN1, IN2, IN3, IN4> SplitDriver<IN1, IN2, IN3, IN4> {
    /// Bridge A over `in1` and `in2`, bridge B over `in3` and `in4`.
    pub fn new(in1: IN1, in2: IN2, in3: IN3, in4: IN4) -> (driver: Self)
        ensures
            driver.a.in1 == in1,
            driver.a.in2 == in2,
            driver.b.in1 == in3,
            driver.b.in2 == in4,
    {
        Self { a: Bridge::new(in1, in2), b: Bridge::new(in3, in4) }
    }
}

impl<IN1, IN2, IN3, IN4> Driver for SplitDriver<IN1, IN2, IN3, IN4> {
}

} // verus!
