//! The two kinds of output that the driver is built on.
//!
//! The driver asks nothing of an output but that it can be written to and
//! says whether the write went through. The methods are those of an
//! `OutputPin` and of a `SetDutyCycle` of `embedded-hal`, so that a pin or
//! a PWM channel of a board crate fits behind them with one line for each
//! method.
//!
//! Each trait has spec functions in which an implementation may say what
//! its writes do. They are `true` unless an implementation states more,
//! and then it has to prove it. The driver's contracts hand on, in these
//! terms, which writes it made and what the outputs gave for them.

use vstd::prelude::*;

verus! {

/// The level of a digital line.
#[derive(Clone, Copy, Debug, PartialEq, Eq, Structural)]
pub enum Level {
    Low,
    High,
}

/// The error that a write ended with, `None` if it went through.
pub open spec fn failure_of<E>(outcome: Result<(), E>) -> Option<E> {
    match outcome {
        Ok(_) => None,
        Err(e) => Some(e),
    }
}

/// A push-pull digital output whose writes may fail.
///
/// `drives` is what an implementation says of its own writes: whether a
/// write of `level` can take the output from `self` to `after` and end
/// with `failure`, or go through where that is `None`. It binds an implementation to nothing that the
/// implementation does not state itself: one that says nothing admits
/// every write.
pub trait DigitalOutput {
    /// What a failed write gives.
    type Error;

    open spec fn drives(&self, level: Level, failure: Option<Self::Error>, after: &Self) -> bool {
        true
    }

    /// Drives the line high.
    fn set_high(&mut self) -> (r: Result<(), Self::Error>)
        ensures
            old(self).drives(Level::High, failure_of(r), final(self)),
    ;

    /// Drives the line low.
    fn set_low(&mut self) -> (r: Result<(), Self::Error>)
        ensures
            old(self).drives(Level::Low, failure_of(r), final(self)),
    ;
}

/// A PWM output whose writes may fail.
///
/// `gives_max` and `writes` are what an implementation says of itself:
/// whether it can give `max` as its largest duty, and whether a write of
/// `duty` can take it from `self` to `after` and end with `failure`, or
/// go through where that is `None`.
/// One that says nothing admits every answer and every write.
pub trait PwmOutput {
    /// What a failed write gives.
    type Error;

    open spec fn gives_max(&self, max: u16) -> bool {
        true
    }

    open spec fn writes(&self, duty: u16, failure: Option<Self::Error>, after: &Self) -> bool {
        true
    }

    /// The duty that stands for an output that is always active.
    fn max_duty_cycle(&self) -> (max: u16)
        ensures
            self.gives_max(max),
    ;

    /// Sets the duty to `duty` out of the largest duty.
    fn set_duty_cycle(&mut self, duty: u16) -> (r: Result<(), Self::Error>)
        ensures
            old(self).writes(duty, failure_of(r), final(self)),
    ;
}

/// A borrowed output is an output: a driver can be built on a line that
/// its caller takes back afterwards. A write on the borrow is the same
/// write on the output behind it.
impl<T: DigitalOutput> DigitalOutput for &mut T {
    type Error = T::Error;

    open spec fn drives(&self, level: Level, failure: Option<T::Error>, after: &Self) -> bool {
        (**self).drives(level, failure, &**after)
    }

    fn set_high(&mut self) -> (r: Result<(), T::Error>) {
        (**self).set_high()
    }

    fn set_low(&mut self) -> (r: Result<(), T::Error>) {
        (**self).set_low()
    }
}

/// A borrowed PWM output is a PWM output, with the largest duty and the
/// writes of the output behind it.
impl<T: PwmOutput> PwmOutput for &mut T {
    type Error = T::Error;

    open spec fn gives_max(&self, max: u16) -> bool {
        (**self).gives_max(max)
    }

    open spec fn writes(&self, duty: u16, failure: Option<T::Error>, after: &Self) -> bool {
        (**self).writes(duty, failure, &**after)
    }

    fn max_duty_cycle(&self) -> (max: u16) {
        (**self).max_duty_cycle()
    }

    fn set_duty_cycle(&mut self, duty: u16) -> (r: Result<(), T::Error>) {
        (**self).set_duty_cycle(duty)
    }
}

} // verus!
