//! Outputs together with what they last acknowledged.
//!
//! An output says only whether a write went through. The driver's
//! contracts speak of the level of a line and of the duty of a PWM output:
//! these are the last value whose write the output acknowledged, kept
//! here beside the output. Each write here is one write on the output,
//! and its result is the output's.

use vstd::prelude::*;
use crate::capability::{failure_of, DigitalOutput, Level, PwmOutput};

verus! {

/// What an output holds after a write of `value` that ended in `outcome`,
/// when it held `before`: the new value if the write went through, the
/// old one if not.
pub open spec fn acknowledged<T, E>(before: Option<T>, value: T, outcome: Result<(), E>) -> Option<
    T,
> {
    if outcome is Ok {
        Some(value)
    } else {
        before
    }
}

/// Computes [`acknowledged`].
pub fn acknowledge<T, E>(before: Option<T>, value: T, outcome: &Result<(), E>) -> (after: Option<T>)
    ensures
        after == acknowledged(before, value, *outcome),
{
    match outcome {
        Ok(_) => Some(value),
        Err(_) => before,
    }
}

/// A digital output and the level that it was last driven to with
/// success.
pub(crate) struct RecordedLine<P> {
    pin: P,
    level: Option<Level>,
}

impl<P: DigitalOutput> RecordedLine<P> {
    /// The level that the line was last driven to with success, `None` as
    /// long as it was never driven.
    pub(crate) closed spec fn level(&self) -> Option<Level> {
        self.level
    }

    /// The output itself.
    pub(crate) closed spec fn output(&self) -> P {
        self.pin
    }

    /// Takes over `pin`, which counts as never driven.
    pub(crate) fn new(pin: P) -> (line: Self)
        ensures
            line.level() is None,
            line.output() == pin,
    {
        RecordedLine { pin, level: None }
    }

    /// Drives the line high.
    pub(crate) fn set_high(&mut self) -> (r: Result<(), P::Error>)
        ensures
            old(self).output().drives(Level::High, failure_of(r), &final(self).output()),
            final(self).level() == acknowledged(old(self).level(), Level::High, r),
    {
        let r = self.pin.set_high();
        self.level = acknowledge(self.level, Level::High, &r);
        r
    }

    /// Drives the line low.
    pub(crate) fn set_low(&mut self) -> (r: Result<(), P::Error>)
        ensures
            old(self).output().drives(Level::Low, failure_of(r), &final(self).output()),
            final(self).level() == acknowledged(old(self).level(), Level::Low, r),
    {
        let r = self.pin.set_low();
        self.level = acknowledge(self.level, Level::Low, &r);
        r
    }
}

/// A PWM output with the duty that was last written with success and the
/// largest duty that the output gave for that write.
pub(crate) struct RecordedPwm<W> {
    pwm: W,
    max: u16,
    duty: Option<u16>,
}

impl<W: PwmOutput> RecordedPwm<W> {
    /// The largest duty that the output gave for the last duty that was
    /// scaled to it and written with success, zero as long as there was
    /// none.
    pub(crate) closed spec fn max_duty(&self) -> u16 {
        self.max
    }

    /// The duty that was last written with success, `None` as long as
    /// none was.
    pub(crate) closed spec fn duty(&self) -> Option<u16> {
        self.duty
    }

    /// The output itself.
    pub(crate) closed spec fn output(&self) -> W {
        self.pwm
    }

    /// Takes over `pwm`. No duty counts as written.
    pub(crate) fn new(pwm: W) -> (output: Self)
        ensures
            output.duty() is None,
            output.output() == pwm,
    {
        RecordedPwm { pwm, max: 0, duty: None }
    }

    /// Asks the output for the duty that stands for always active. The
    /// output may give another one each time: what comes back is one that
    /// the output gives now.
    pub(crate) fn max_duty_cycle(&self) -> (max: u16)
        ensures
            self.output().gives_max(max),
    {
        self.pwm.max_duty_cycle()
    }

    /// Takes the duty to zero, which is within the range of every output.
    pub(crate) fn set_zero(&mut self) -> (r: Result<(), W::Error>)
        ensures
            old(self).output().writes(0u16, failure_of(r), &final(self).output()),
            final(self).duty() == acknowledged(old(self).duty(), 0u16, r),
            final(self).max_duty() == old(self).max_duty(),
    {
        let r = self.pwm.set_duty_cycle(0u16);
        self.duty = acknowledge(self.duty, 0u16, &r);
        r
    }

    /// Sets the duty to `duty` out of `max`, the largest duty that the
    /// output gave for this write. An output is never asked for more than
    /// that.
    pub(crate) fn set_duty_cycle(&mut self, duty: u16, max: u16) -> (r: Result<(), W::Error>)
        requires
            duty <= max,
        ensures
            old(self).output().writes(duty, failure_of(r), &final(self).output()),
            final(self).duty() == acknowledged(old(self).duty(), duty, r),
            final(self).max_duty() == (if r is Ok {
                max
            } else {
                old(self).max_duty()
            }),
    {
        let r = self.pwm.set_duty_cycle(duty);
        self.duty = acknowledge(self.duty, duty, &r);
        if r.is_ok() {
            self.max = max;
        }
        r
    }
}

} // verus!
