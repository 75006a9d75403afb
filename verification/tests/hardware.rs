//! The driver core on mocked pins and channels: a small shell performs each access
//! that a task asks for, and the mocks check every call that reaches them.

use drv8833_driver::bridge::{Bridge, PwmBridge};
use drv8833_driver::driver::{
    Breaks, Driver, HeldByDriver, MotorDriver, MotorDriverError, Movement, PwmMovement, PwmSleep,
};
use drv8833_driver::parallel_driver::ParallelDriver;
use drv8833_driver::pwm_parallel_driver::PwmParallelDriver;
use drv8833_driver::signal::{Action, Line, Reply};
use drv8833_driver::sync_driver::SyncDriver;
use drv8833_driver::task::{Poll, Probe, Task};
use embedded_hal::digital::{ErrorKind, ErrorType, InputPin, OutputPin, PinState};
use embedded_hal::pwm::SetDutyCycle;
use embedded_hal_mock::eh1::digital::State::{High, Low};
use embedded_hal_mock::eh1::digital::{Mock as Pin, Transaction};
use embedded_hal_mock::eh1::pwm::{Mock as PwmPin, Transaction as PwmPinTransaction};
use embedded_hal_mock::eh1::MockError;

/// Something that holds pins and can perform an access on them.
trait Pins {
    fn perform(&mut self, action: Action) -> Reply;
}

fn written<E>(result: Result<(), E>) -> Reply {
    match result {
        Ok(()) => Reply::Done,
        Err(_) => Reply::Failed,
    }
}

fn digital<P: OutputPin>(pin: &mut P, action: Action) -> Reply {
    match action {
        Action::SetLow(_) => written(pin.set_low()),
        Action::SetHigh(_) => written(pin.set_high()),
        _ => Reply::Failed,
    }
}

fn channel<P: SetDutyCycle>(pwm: &mut P, action: Action) -> Reply {
    match action {
        Action::SetDutyCycleFullyOff(_) => written(pwm.set_duty_cycle_fully_off()),
        Action::SetDutyCycleFullyOn(_) => written(pwm.set_duty_cycle_fully_on()),
        Action::SetDutyCycle(_, duty) => written(pwm.set_duty_cycle(duty)),
        Action::SetDutyCyclePercent(_, percent) => written(pwm.set_duty_cycle_percent(percent)),
        Action::MaxDutyCycle(_) => Reply::MaxDutyCycle(pwm.max_duty_cycle()),
        _ => Reply::Failed,
    }
}

fn input<P: InputPin>(pin: &mut Option<P>, action: Action) -> Reply {
    match (pin, action) {
        (Some(pin), Action::IsLow(_)) => match pin.is_low() {
            Ok(low) => Reply::IsLow(low),
            Err(_) => Reply::Failed,
        },
        _ => Reply::Failed,
    }
}

impl<IN1: OutputPin, IN2: OutputPin> Pins for Bridge<IN1, IN2> {
    fn perform(&mut self, action: Action) -> Reply {
        match action.line() {
            Line::In1 => digital(&mut self.in1, action),
            Line::In2 => digital(&mut self.in2, action),
            _ => Reply::Failed,
        }
    }
}

impl<IN1: SetDutyCycle, IN2: SetDutyCycle> Pins for PwmBridge<IN1, IN2> {
    fn perform(&mut self, action: Action) -> Reply {
        match action.line() {
            Line::In1 => channel(&mut self.bridge.in1, action),
            Line::In2 => channel(&mut self.bridge.in2, action),
            _ => Reply::Failed,
        }
    }
}

impl<IN1: OutputPin, IN2: OutputPin, IN3: OutputPin, IN4: OutputPin> Pins
    for ParallelDriver<IN1, IN2, IN3, IN4>
{
    fn perform(&mut self, action: Action) -> Reply {
        match action.line() {
            Line::In1 => digital(&mut self.a.in1, action),
            Line::In2 => digital(&mut self.a.in2, action),
            Line::In3 => digital(&mut self.b.in1, action),
            Line::In4 => digital(&mut self.b.in2, action),
            _ => Reply::Failed,
        }
    }
}

impl<IN1: OutputPin, IN2: OutputPin, IN3: OutputPin, IN4: OutputPin, PWM: SetDutyCycle> Pins
    for PwmParallelDriver<IN1, IN2, IN3, IN4, PWM>
{
    fn perform(&mut self, action: Action) -> Reply {
        match action.line() {
            Line::In1 => digital(&mut self.split.a.in1, action),
            Line::In2 => digital(&mut self.split.a.in2, action),
            Line::In3 => digital(&mut self.split.b.in1, action),
            Line::In4 => digital(&mut self.split.b.in2, action),
            Line::Sleep => channel(&mut self.pwm, action),
            _ => Reply::Failed,
        }
    }
}

impl<DRIVER: Driver, SLEEP: OutputPin, FAULT: InputPin> Pins
    for MotorDriver<DRIVER, Option<SLEEP>, FAULT>
{
    fn perform(&mut self, action: Action) -> Reply {
        match (action.line(), &mut self.sleep) {
            (Line::Sleep, Some(sleep)) => digital(sleep, action),
            (Line::Fault, _) => input(&mut self.fault, action),
            _ => Reply::Failed,
        }
    }
}

impl<DRIVER: Driver, PWM: SetDutyCycle, FAULT: InputPin> Pins
    for MotorDriver<DRIVER, PwmSleep<PWM>, FAULT>
{
    fn perform(&mut self, action: Action) -> Reply {
        match action.line() {
            Line::Sleep => channel(&mut self.sleep.channel, action),
            Line::Fault => input(&mut self.fault, action),
            _ => Reply::Failed,
        }
    }
}

impl<DRIVER: Driver, FAULT: InputPin> Pins for MotorDriver<DRIVER, HeldByDriver, FAULT> {
    fn perform(&mut self, action: Action) -> Reply {
        match action.line() {
            Line::Fault => input(&mut self.fault, action),
            _ => Reply::Failed,
        }
    }
}

fn run<P: Pins>(pins: &mut P, mut task: Task) -> Result<(), MotorDriverError> {
    loop {
        match task.poll() {
            Poll::Perform(action) => {
                let reply = pins.perform(action);
                task.resume(reply);
            }
            Poll::Finished(result) => return result,
        }
    }
}

fn read<P: Pins>(pins: &mut P, mut probe: Probe) -> Result<bool, MotorDriverError> {
    loop {
        match probe.poll() {
            Poll::Perform(action) => {
                let reply = pins.perform(action);
                probe.resume(reply);
            }
            Poll::Finished(result) => return result,
        }
    }
}

fn forward<P: Pins + Movement>(pins: &mut P) -> Result<(), MotorDriverError> {
    let task = pins.forward();
    run(pins, task)
}

fn reverse<P: Pins + Movement>(pins: &mut P) -> Result<(), MotorDriverError> {
    let task = pins.reverse();
    run(pins, task)
}

fn forward_at<P: Pins + PwmMovement>(pins: &mut P, percent: u8) -> Result<(), MotorDriverError> {
    let task = pins.forward(percent)?;
    run(pins, task)
}

fn reverse_at<P: Pins + PwmMovement>(pins: &mut P, percent: u8) -> Result<(), MotorDriverError> {
    let task = pins.reverse(percent)?;
    run(pins, task)
}

fn coast<P: Pins + Breaks>(pins: &mut P) -> Result<(), MotorDriverError> {
    let task = pins.coast();
    run(pins, task)
}

fn stop<P: Pins + Breaks>(pins: &mut P) -> Result<(), MotorDriverError> {
    let task = pins.stop();
    run(pins, task)
}

fn sleep<DRIVER: Driver, SLEEP: OutputPin, FAULT: InputPin>(
    motor: &mut MotorDriver<DRIVER, Option<SLEEP>, FAULT>,
) -> Result<(), MotorDriverError> {
    let task = motor.sleep();
    run(motor, task)
}

fn wakeup<DRIVER: Driver, SLEEP: OutputPin, FAULT: InputPin>(
    motor: &mut MotorDriver<DRIVER, Option<SLEEP>, FAULT>,
) -> Result<(), MotorDriverError> {
    let task = motor.wakeup();
    run(motor, task)
}

fn io_error() -> MockError {
    MockError::Io(std::io::ErrorKind::NotConnected)
}

/// An output pin that remembers the last state it was set to.
#[derive(Debug)]
pub struct OutputPinMock {
    sleep: Option<PinState>,
}

impl OutputPinMock {
    fn new() -> Self {
        Self { sleep: None }
    }
}

#[derive(Debug)]
pub enum PinError {}

impl embedded_hal::digital::Error for PinError {
    fn kind(&self) -> ErrorKind {
        ErrorKind::Other
    }
}

impl ErrorType for OutputPinMock {
    type Error = PinError;
}

impl OutputPin for OutputPinMock {
    fn set_low(&mut self) -> Result<(), Self::Error> {
        self.sleep = Some(PinState::Low);

        Ok(())
    }

    fn set_high(&mut self) -> Result<(), Self::Error> {
        self.sleep = Some(PinState::High);

        Ok(())
    }
}

#[test]
fn it_toggles_sleep_for_sync_driver() -> Result<(), MotorDriverError> {
    let in1 = OutputPinMock::new();
    let in2 = OutputPinMock::new();
    let in3 = OutputPinMock::new();
    let in4 = OutputPinMock::new();
    let sleep_pin = OutputPinMock::new();

    let mut motor = MotorDriver {
        driver: SyncDriver::new(in1, in2, in3, in4),
        sleep: Some(sleep_pin),
        fault: None::<Pin>,
    };

    sleep(&mut motor)?;
    assert_eq!(motor.sleep.as_ref().unwrap().sleep, Some(PinState::Low));

    wakeup(&mut motor)?;
    assert_eq!(motor.sleep.as_ref().unwrap().sleep, Some(PinState::High));

    assert_eq!(motor.driver.a.in1.sleep, None);
    assert_eq!(motor.driver.a.in2.sleep, None);
    assert_eq!(motor.driver.b.in1.sleep, None);
    assert_eq!(motor.driver.b.in2.sleep, None);

    Ok(())
}

#[test]
fn it_toggles_sleep_for_parallel_driver() -> Result<(), MotorDriverError> {
    let in1 = OutputPinMock::new();
    let in2 = OutputPinMock::new();
    let in3 = OutputPinMock::new();
    let in4 = OutputPinMock::new();
    let sleep_pin = OutputPinMock::new();

    let mut motor = MotorDriver::new_parallel(in1, in2, in3, in4, Some(sleep_pin), None::<Pin>);

    sleep(&mut motor)?;
    assert_eq!(motor.sleep.as_ref().unwrap().sleep, Some(PinState::Low));

    wakeup(&mut motor)?;
    assert_eq!(motor.sleep.as_ref().unwrap().sleep, Some(PinState::High));

    assert_eq!(motor.driver.a.in1.sleep, None);
    assert_eq!(motor.driver.b.in2.sleep, None);

    Ok(())
}

#[test]
fn it_test_() -> Result<(), MotorDriverError> {
    let in1 = OutputPinMock::new();
    let in2 = OutputPinMock::new();
    let in3 = OutputPinMock::new();
    let in4 = OutputPinMock::new();
    let sleep_pin = OutputPinMock::new();

    let motor = MotorDriver::new_parallel(in1, in2, in3, in4, Some(sleep_pin), None::<Pin>);

    assert_eq!(motor.sleep.as_ref().unwrap().sleep, None);
    assert!(motor.fault.is_none());

    Ok(())
}

#[test]
fn test_all_operation_are_driven_simultaneously() -> Result<(), MotorDriverError> {
    let mut in1 = Pin::new(&[
        Transaction::set(High),
        Transaction::set(Low),
        Transaction::set(Low),
        Transaction::set(High),
    ]);

    let mut in2 = Pin::new(&[
        Transaction::set(Low),
        Transaction::set(Low),
        Transaction::set(High),
        Transaction::set(High),
    ]);

    let mut in3 = Pin::new(&[
        Transaction::set(High),
        Transaction::set(Low),
        Transaction::set(Low),
        Transaction::set(High),
    ]);

    let mut in4 = Pin::new(&[
        Transaction::set(Low),
        Transaction::set(Low),
        Transaction::set(High),
        Transaction::set(High),
    ]);

    let mut sleep_pin = Pin::new(&[Transaction::set(High), Transaction::set(Low)]);
    let mut motor = MotorDriver::new_parallel(
        in1.clone(),
        in2.clone(),
        in3.clone(),
        in4.clone(),
        Some(sleep_pin.clone()),
        None::<Pin>,
    );

    wakeup(&mut motor)?;
    forward(&mut *motor)?;
    coast(&mut *motor)?;
    reverse(&mut *motor)?;
    stop(&mut *motor)?;
    sleep(&mut motor)?;

    in1.done();
    in2.done();
    in3.done();
    in4.done();

    sleep_pin.done();

    Ok(())
}

#[test]
fn pwm_parallel_driver_test_it_can_drive_each_bridge_independently() -> Result<(), MotorDriverError>
{
    let mut in1 = Pin::new(&[
        Transaction::set(High),
        Transaction::set(Low),
        Transaction::set(Low),
        Transaction::set(High),
    ]);

    let mut in2 = Pin::new(&[
        Transaction::set(Low),
        Transaction::set(Low),
        Transaction::set(High),
        Transaction::set(High),
    ]);

    let mut in3 = Pin::new(&[
        Transaction::set(High),
        Transaction::set(Low),
        Transaction::set(Low),
        Transaction::set(High),
    ]);

    let mut in4 = Pin::new(&[
        Transaction::set(Low),
        Transaction::set(Low),
        Transaction::set(High),
        Transaction::set(High),
    ]);

    let mut pwm = PwmPin::new(&[
        PwmPinTransaction::max_duty_cycle(100),
        PwmPinTransaction::set_duty_cycle(50),
        PwmPinTransaction::set_duty_cycle(0),
        PwmPinTransaction::max_duty_cycle(100),
        PwmPinTransaction::set_duty_cycle(10),
        PwmPinTransaction::max_duty_cycle(100),
        PwmPinTransaction::set_duty_cycle(100),
    ]);

    let mut motor = MotorDriver::new_pwm_parallel(
        in1.clone(),
        in2.clone(),
        in3.clone(),
        in4.clone(),
        pwm.clone(),
        None::<Pin>,
    );

    forward_at(&mut *motor, 50)?;
    coast(&mut *motor)?;
    reverse_at(&mut *motor, 10)?;
    stop(&mut *motor)?;

    in1.done();
    in2.done();
    in3.done();
    in4.done();

    pwm.done();

    Ok(())
}

#[test]
fn pwm_split_driver_test_it_can_drive_each_bridge_independently() -> Result<(), MotorDriverError> {
    let mut in1 = PwmPin::new(&[
        PwmPinTransaction::max_duty_cycle(100),
        PwmPinTransaction::set_duty_cycle(50),
        PwmPinTransaction::set_duty_cycle(0),
    ]);

    let mut in2 =
        PwmPin::new(&[PwmPinTransaction::set_duty_cycle(0), PwmPinTransaction::set_duty_cycle(0)]);

    let mut in3 = PwmPin::new(&[
        PwmPinTransaction::set_duty_cycle(0),
        PwmPinTransaction::max_duty_cycle(100),
        PwmPinTransaction::set_duty_cycle(100),
    ]);

    let mut in4 = PwmPin::new(&[
        PwmPinTransaction::max_duty_cycle(100),
        PwmPinTransaction::set_duty_cycle(10),
        PwmPinTransaction::max_duty_cycle(100),
        PwmPinTransaction::set_duty_cycle(100),
    ]);

    let mut sleep_pin = Pin::new(&[Transaction::set(High), Transaction::set(Low)]);

    let mut motor = MotorDriver::new_pwm_split(
        in1.clone(),
        in2.clone(),
        in3.clone(),
        in4.clone(),
        Some(sleep_pin.clone()),
        None::<Pin>,
    );

    wakeup(&mut motor)?;

    forward_at(&mut motor.a, 50)?;
    reverse_at(&mut motor.b, 10)?;

    coast(&mut motor.a)?;
    stop(&mut motor.b)?;

    sleep(&mut motor)?;

    in1.done();
    in2.done();
    in3.done();
    in4.done();

    sleep_pin.done();

    Ok(())
}

#[test]
fn it_can_drive_each_bridge_independently() -> Result<(), MotorDriverError> {
    let mut in1 = Pin::new(&[Transaction::set(High), Transaction::set(Low)]);
    let mut in2 = Pin::new(&[Transaction::set(Low), Transaction::set(Low)]);
    let mut in3 = Pin::new(&[Transaction::set(Low), Transaction::set(High)]);
    let mut in4 = Pin::new(&[Transaction::set(High), Transaction::set(High)]);

    let mut sleep_pin = Pin::new(&[Transaction::set(High), Transaction::set(Low)]);

    let mut motor = MotorDriver::new_split(
        in1.clone(),
        in2.clone(),
        in3.clone(),
        in4.clone(),
        Some(sleep_pin.clone()),
        None::<Pin>,
    );

    wakeup(&mut motor)?;

    forward(&mut motor.a)?;
    reverse(&mut motor.b)?;

    coast(&mut motor.a)?;
    stop(&mut motor.b)?;

    sleep(&mut motor)?;

    in1.done();
    in2.done();
    in3.done();
    in4.done();

    sleep_pin.done();

    Ok(())
}

#[test]
fn it_can_be_driven_by_pwm() -> Result<(), MotorDriverError> {
    let mut in1 = Pin::new(&[Transaction::set(High), Transaction::set(Low)]);
    let mut in2 = Pin::new(&[Transaction::set(Low), Transaction::set(Low)]);
    let mut in3 = Pin::new(&[Transaction::set(Low), Transaction::set(High)]);
    let mut in4 = Pin::new(&[Transaction::set(High), Transaction::set(High)]);
    let mut pwm = PwmPin::new(&[
        PwmPinTransaction::max_duty_cycle(100),
        PwmPinTransaction::set_duty_cycle(50),
    ]);

    let mut motor = MotorDriver::new_pwm_split_single(
        in1.clone(),
        in2.clone(),
        in3.clone(),
        in4.clone(),
        pwm.clone(),
        None::<Pin>,
    );

    let task = motor.set_duty_cycle(50)?;
    run(&mut motor, task)?;

    forward(&mut motor.a)?;
    reverse(&mut motor.b)?;
    coast(&mut motor.a)?;
    stop(&mut motor.b)?;

    in1.done();
    in2.done();
    in3.done();
    in4.done();

    pwm.done();

    Ok(())
}

#[test]
fn forward_stops_at_the_first_failed_write() {
    let mut in1 = Pin::new(&[Transaction::set(High).with_error(io_error())]);
    let mut in2 = Pin::new(&[]);
    let mut bridge = Bridge::new(in1.clone(), in2.clone());

    assert_eq!(forward(&mut bridge), Err(MotorDriverError::GpioError));

    in1.done();
    in2.done();
}

#[test]
fn a_failed_second_write_leaves_the_first_in_place() {
    let mut in1 = Pin::new(&[Transaction::set(Low)]);
    let mut in2 = Pin::new(&[Transaction::set(High).with_error(io_error())]);
    let mut bridge = Bridge::new(in1.clone(), in2.clone());

    assert_eq!(reverse(&mut bridge), Err(MotorDriverError::GpioError));

    in1.done();
    in2.done();
}

#[test]
fn forward_then_reverse_swaps_the_two_pins() {
    let mut bridge = Bridge::new(OutputPinMock::new(), OutputPinMock::new());

    assert_eq!(forward(&mut bridge), Ok(()));
    assert_eq!(bridge.in1.sleep, Some(PinState::High));
    assert_eq!(bridge.in2.sleep, Some(PinState::Low));

    assert_eq!(reverse(&mut bridge), Ok(()));
    assert_eq!(bridge.in1.sleep, Some(PinState::Low));
    assert_eq!(bridge.in2.sleep, Some(PinState::High));
}

#[test]
fn coast_and_stop_do_not_depend_on_what_was_before() {
    let mut bridge = Bridge::new(OutputPinMock::new(), OutputPinMock::new());

    assert_eq!(coast(&mut bridge), Ok(()));
    assert_eq!(bridge.in1.sleep, Some(PinState::Low));
    assert_eq!(bridge.in2.sleep, Some(PinState::Low));
    assert_eq!(coast(&mut bridge), Ok(()));
    assert_eq!(bridge.in1.sleep, Some(PinState::Low));
    assert_eq!(bridge.in2.sleep, Some(PinState::Low));

    assert_eq!(forward(&mut bridge), Ok(()));
    assert_eq!(stop(&mut bridge), Ok(()));
    assert_eq!(bridge.in1.sleep, Some(PinState::High));
    assert_eq!(bridge.in2.sleep, Some(PinState::High));
    assert_eq!(stop(&mut bridge), Ok(()));
    assert_eq!(bridge.in1.sleep, Some(PinState::High));
    assert_eq!(bridge.in2.sleep, Some(PinState::High));

    assert_eq!(reverse(&mut bridge), Ok(()));
    assert_eq!(coast(&mut bridge), Ok(()));
    assert_eq!(bridge.in1.sleep, Some(PinState::Low));
    assert_eq!(bridge.in2.sleep, Some(PinState::Low));
}

#[test]
fn pwm_forward_out_of_range_touches_no_channel() {
    let mut in1 = PwmPin::new(&[]);
    let mut in2 = PwmPin::new(&[]);
    let mut bridge = PwmBridge::new(in1.clone(), in2.clone(), 0);

    assert_eq!(forward_at(&mut bridge, 150), Err(MotorDriverError::InvalidRange));
    assert_eq!(reverse_at(&mut bridge, 101), Err(MotorDriverError::InvalidRange));

    in1.done();
    in2.done();
}

#[test]
fn pwm_forward_uses_the_minimum_duty() {
    let mut in1 = PwmPin::new(&[
        PwmPinTransaction::max_duty_cycle(100),
        PwmPinTransaction::set_duty_cycle(55),
        PwmPinTransaction::max_duty_cycle(200),
        PwmPinTransaction::set_duty_cycle(30),
    ]);
    let mut in2 =
        PwmPin::new(&[PwmPinTransaction::set_duty_cycle(0), PwmPinTransaction::set_duty_cycle(0)]);
    let mut bridge = PwmBridge::new(in1.clone(), in2.clone(), 10);

    assert_eq!(forward_at(&mut bridge, 50), Ok(()));
    bridge.set_min_duty(30);
    assert_eq!(forward_at(&mut bridge, 0), Ok(()));

    in1.done();
    in2.done();
}

#[test]
fn pwm_forward_reports_a_channel_that_does_not_take_the_duty() {
    let mut in1 = PwmPin::new(&[
        PwmPinTransaction::max_duty_cycle(100),
        PwmPinTransaction::set_duty_cycle(40).with_error(io_error()),
    ]);
    let mut in2 = PwmPin::new(&[]);
    let mut bridge = PwmBridge::new(in1.clone(), in2.clone(), 0);

    assert_eq!(forward_at(&mut bridge, 40), Err(MotorDriverError::UnableToSetDuty));

    in1.done();
    in2.done();
}

#[test]
fn pwm_coast_reports_a_failed_channel_as_gpio_error() {
    let mut in1 = PwmPin::new(&[PwmPinTransaction::set_duty_cycle(0)]);
    let mut in2 = PwmPin::new(&[PwmPinTransaction::set_duty_cycle(0).with_error(io_error())]);
    let mut bridge = PwmBridge::new(in1.clone(), in2.clone(), 0);

    assert_eq!(coast(&mut bridge), Err(MotorDriverError::GpioError));

    in1.done();
    in2.done();
}

#[test]
fn pwm_parallel_out_of_range_touches_nothing() {
    let mut in1 = Pin::new(&[]);
    let mut in2 = Pin::new(&[]);
    let mut in3 = Pin::new(&[]);
    let mut in4 = Pin::new(&[]);
    let mut pwm = PwmPin::new(&[]);
    let mut motor = MotorDriver::new_pwm_parallel(
        in1.clone(),
        in2.clone(),
        in3.clone(),
        in4.clone(),
        pwm.clone(),
        None::<Pin>,
    );

    assert_eq!(forward_at(&mut motor.driver, 101), Err(MotorDriverError::InvalidRange));
    assert_eq!(reverse_at(&mut motor.driver, 255), Err(MotorDriverError::InvalidRange));
    assert!(motor.driver.set_duty_cycle_percent(101).is_err());

    in1.done();
    in2.done();
    in3.done();
    in4.done();
    pwm.done();
}

#[test]
fn pwm_parallel_goes_fully_on_and_off_at_the_ends() {
    let mut in1 = Pin::new(&[Transaction::set(High), Transaction::set(Low)]);
    let mut in2 = Pin::new(&[Transaction::set(Low), Transaction::set(High)]);
    let mut in3 = Pin::new(&[Transaction::set(High), Transaction::set(Low)]);
    let mut in4 = Pin::new(&[Transaction::set(Low), Transaction::set(High)]);
    let mut pwm = PwmPin::new(&[
        PwmPinTransaction::set_duty_cycle(0),
        PwmPinTransaction::max_duty_cycle(1000),
        PwmPinTransaction::set_duty_cycle(1000),
        PwmPinTransaction::max_duty_cycle(1000),
        PwmPinTransaction::set_duty_cycle(604),
    ]);
    let mut motor = MotorDriver::new_pwm_parallel(
        in1.clone(),
        in2.clone(),
        in3.clone(),
        in4.clone(),
        pwm.clone(),
        None::<Pin>,
    );
    motor.driver.set_min_duty(400);

    assert_eq!(forward_at(&mut motor.driver, 0), Ok(()));
    assert_eq!(reverse_at(&mut motor.driver, 100), Ok(()));
    let task = motor.driver.set_duty_cycle_percent(34).unwrap();
    assert_eq!(run(&mut motor.driver, task), Ok(()));

    in1.done();
    in2.done();
    in3.done();
    in4.done();
    pwm.done();
}

#[test]
fn pwm_parallel_leaves_the_bridges_alone_when_the_duty_fails() {
    let mut in1 = Pin::new(&[]);
    let mut in2 = Pin::new(&[]);
    let mut in3 = Pin::new(&[]);
    let mut in4 = Pin::new(&[]);
    let mut pwm = PwmPin::new(&[
        PwmPinTransaction::max_duty_cycle(100),
        PwmPinTransaction::set_duty_cycle(50).with_error(io_error()),
    ]);
    let mut motor = MotorDriver::new_pwm_parallel(
        in1.clone(),
        in2.clone(),
        in3.clone(),
        in4.clone(),
        pwm.clone(),
        None::<Pin>,
    );

    assert_eq!(forward_at(&mut motor.driver, 50), Err(MotorDriverError::UnableToSetDuty));

    in1.done();
    in2.done();
    in3.done();
    in4.done();
    pwm.done();
}

#[test]
fn split_single_refuses_a_duty_out_of_range() {
    let mut pwm = PwmPin::new(&[]);
    let motor = MotorDriver::new_pwm_split_single(
        OutputPinMock::new(),
        OutputPinMock::new(),
        OutputPinMock::new(),
        OutputPinMock::new(),
        pwm.clone(),
        None::<Pin>,
    );

    assert!(matches!(motor.set_duty_cycle(101), Err(MotorDriverError::InvalidRange)));

    pwm.done();
}

#[test]
fn split_single_scales_against_the_channel_maximum() {
    let mut pwm = PwmPin::new(&[
        PwmPinTransaction::max_duty_cycle(255),
        PwmPinTransaction::set_duty_cycle(84),
        PwmPinTransaction::max_duty_cycle(255),
        PwmPinTransaction::set_duty_cycle(255).with_error(io_error()),
    ]);
    let mut motor = MotorDriver::new_pwm_split_single(
        OutputPinMock::new(),
        OutputPinMock::new(),
        OutputPinMock::new(),
        OutputPinMock::new(),
        pwm.clone(),
        None::<Pin>,
    );

    let task = motor.set_duty_cycle(33).unwrap();
    assert_eq!(run(&mut motor, task), Ok(()));
    let task = motor.set_duty_cycle(100).unwrap();
    assert_eq!(run(&mut motor, task), Err(MotorDriverError::UnableToSetDuty));

    pwm.done();
}

#[test]
fn sleep_without_a_pin_does_nothing() {
    let mut in1 = Pin::new(&[]);
    let mut motor = MotorDriver::new_split(
        in1.clone(),
        in1.clone(),
        in1.clone(),
        in1.clone(),
        None::<Pin>,
        None::<Pin>,
    );

    assert_eq!(sleep(&mut motor), Ok(()));
    assert_eq!(wakeup(&mut motor), Ok(()));

    in1.done();
}

#[test]
fn sleep_reports_a_failed_pin() {
    let mut sleep_pin = Pin::new(&[
        Transaction::set(Low).with_error(io_error()),
        Transaction::set(High).with_error(io_error()),
    ]);
    let mut motor = MotorDriver::new_split(
        OutputPinMock::new(),
        OutputPinMock::new(),
        OutputPinMock::new(),
        OutputPinMock::new(),
        Some(sleep_pin.clone()),
        None::<Pin>,
    );

    assert_eq!(sleep(&mut motor), Err(MotorDriverError::GpioError));
    assert_eq!(wakeup(&mut motor), Err(MotorDriverError::GpioError));

    sleep_pin.done();
}

#[test]
fn fault_without_a_pin_is_never_faulty() {
    let mut motor = MotorDriver::new_split(
        OutputPinMock::new(),
        OutputPinMock::new(),
        OutputPinMock::new(),
        OutputPinMock::new(),
        None::<OutputPinMock>,
        None::<Pin>,
    );

    let probe = motor.is_faulty();
    assert_eq!(probe, Probe::Absent);
    assert_eq!(probe.poll(), Poll::Finished(Ok(false)));
    assert_eq!(read(&mut motor, probe), Ok(false));
    let probe = motor.is_faulty();
    assert_eq!(read(&mut motor, probe), Ok(false));
}

#[test]
fn fault_is_read_as_active_low() {
    let mut fault = Pin::new(&[
        Transaction::get(Low),
        Transaction::get(High),
        Transaction::get(High).with_error(io_error()),
    ]);
    let mut motor = MotorDriver::new_parallel(
        OutputPinMock::new(),
        OutputPinMock::new(),
        OutputPinMock::new(),
        OutputPinMock::new(),
        None::<OutputPinMock>,
        Some(fault.clone()),
    );

    let probe = motor.is_faulty();
    assert_eq!(read(&mut motor, probe), Ok(true));
    let probe = motor.is_faulty();
    assert_eq!(read(&mut motor, probe), Ok(false));
    let probe = motor.is_faulty();
    assert_eq!(read(&mut motor, probe), Err(MotorDriverError::GpioError));

    assert_eq!(motor.driver.a.in1.sleep, None);
    assert_eq!(motor.driver.b.in2.sleep, None);

    fault.done();
}

#[test]
fn fault_can_be_read_in_the_pwm_modes() {
    let mut fault = Pin::new(&[Transaction::get(Low), Transaction::get(High)]);
    let mut pwm = PwmPin::new(&[]);
    let mut single = MotorDriver::new_pwm_split_single(
        OutputPinMock::new(),
        OutputPinMock::new(),
        OutputPinMock::new(),
        OutputPinMock::new(),
        pwm.clone(),
        Some(fault.clone()),
    );
    let mut parallel = MotorDriver::new_pwm_parallel(
        OutputPinMock::new(),
        OutputPinMock::new(),
        OutputPinMock::new(),
        OutputPinMock::new(),
        pwm.clone(),
        Some(fault.clone()),
    );

    let probe = single.is_faulty();
    assert_eq!(read(&mut single, probe), Ok(true));
    let probe = parallel.is_faulty();
    assert_eq!(read(&mut parallel, probe), Ok(false));

    fault.done();
    pwm.done();
}
