//! The driver: three outputs and the throttle that was last commanded.

use vstd::prelude::*;
use crate::capability::{DigitalOutput, Level, PwmOutput};
use crate::command::{Command, Direction, StopMode};
use crate::error::Error;
use crate::scale::{duty_from_fullscale, lemma_scaled_duty_ends, native_duty, FULLSCALE};
use crate::recorded::{RecordedLine, RecordedPwm};

verus! {

/// What a driver and its three outputs stand at.
pub struct BridgeState {
    /// The level of the first direction input, `None` if never driven.
    pub dir1: Option<Level>,
    /// The level of the second direction input, `None` if never driven.
    pub dir2: Option<Level>,
    /// The duty on the enable input, `None` if never written.
    pub duty: Option<u16>,
    /// The duty at which the enable input is always active, as the
    /// output gave it for the last command that it took a duty from.
    pub max_duty: u16,
    /// The throttle that the driver reports.
    pub throttle: u16,
}

impl BridgeState {
    /// The duty on the enable input is the reported throttle, rescaled to
    /// the output's range. This holds of a driver from its construction on.
    pub open spec fn duty_follows_throttle(self) -> bool {
        self.duty == Some(native_duty(self.max_duty, self.throttle))
    }
}

/// The levels that `command` drives the two direction inputs to, or `None`
/// where it leaves them alone.
pub open spec fn direction_levels(command: Command) -> Option<(Level, Level)> {
    match command {
        Command::Drive { direction: Direction::Forward, .. } => Some((Level::High, Level::Low)),
        Command::Drive { direction: Direction::Reverse, .. } => Some((Level::Low, Level::High)),
        Command::Stop(StopMode::Brake) => Some((Level::High, Level::High)),
        Command::Stop(StopMode::Coast) => None,
    }
}

/// The fullscale throttle that `command` asks for: its own for a drive,
/// the largest for a brake, none for a coast.
pub open spec fn commanded_throttle(command: Command) -> u16 {
    match command {
        Command::Drive { throttle, .. } => throttle,
        Command::Stop(StopMode::Brake) => 0xFFFF,
        Command::Stop(StopMode::Coast) => 0,
    }
}

/// The state `s` with the direction inputs as `command` drives them: where
/// a command stands when its write of the duty fails.
pub open spec fn with_directions(s: BridgeState, command: Command) -> BridgeState {
    match direction_levels(command) {
        Some((first, second)) => BridgeState { dir1: Some(first), dir2: Some(second), ..s },
        None => s,
    }
}

/// The state `s` with only the first direction input as `command` drives
/// it: where a command stands when its write to the second one fails.
pub open spec fn with_first_direction(s: BridgeState, command: Command) -> BridgeState {
    match direction_levels(command) {
        Some((first, _)) => BridgeState { dir1: Some(first), ..s },
        None => s,
    }
}

/// The state that `command` leaves behind when every write succeeds and
/// the enable output gives `max` as its largest duty.
pub open spec fn commanded(s: BridgeState, command: Command, max: u16) -> BridgeState {
    match command {
        Command::Drive { direction: Direction::Forward, throttle } => BridgeState {
            dir1: Some(Level::High),
            dir2: Some(Level::Low),
            duty: Some(native_duty(max, throttle)),
            max_duty: max,
            throttle,
        },
        Command::Drive { direction: Direction::Reverse, throttle } => BridgeState {
            dir1: Some(Level::Low),
            dir2: Some(Level::High),
            duty: Some(native_duty(max, throttle)),
            max_duty: max,
            throttle,
        },
        Command::Stop(StopMode::Brake) => BridgeState {
            dir1: Some(Level::High),
            dir2: Some(Level::High),
            duty: Some(max),
            max_duty: max,
            throttle: 0xFFFF,
        },
        Command::Stop(StopMode::Coast) => BridgeState {
            duty: Some(0u16),
            max_duty: max,
            throttle: 0,
            ..s
        },
    }
}

/// A command that succeeds drives the direction inputs as
/// [`direction_levels`] says, reports the throttle that
/// [`commanded_throttle`] gives, and leaves on the enable input that
/// throttle rescaled: for a brake the largest duty, for a coast none.
pub proof fn lemma_commanded_parts(s: BridgeState, command: Command, max: u16)
    ensures
        commanded(s, command, max).dir1 == with_directions(s, command).dir1,
        commanded(s, command, max).dir2 == with_directions(s, command).dir2,
        commanded(s, command, max).max_duty == max,
        commanded(s, command, max).throttle == commanded_throttle(command),
        commanded(s, command, max).duty == Some(native_duty(max, commanded_throttle(command))),
        commanded(s, command, max).duty_follows_throttle(),
{
    lemma_scaled_duty_ends(max as int);
}

/// Whatever was commanded before, the throttle reported after a brake is
/// the largest one, and after a coast it is zero.
pub proof fn lemma_stop_forgets_throttle(
    s: BridgeState,
    before: Command,
    mode: StopMode,
    max_before: u16,
    max: u16,
)
    ensures
        commanded(commanded(s, before, max_before), Command::Stop(mode), max).throttle == (
        match mode {
            StopMode::Brake => 0xFFFFu16,
            StopMode::Coast => 0u16,
        }),
{
}

/// A command that fails leaves the duty, its range and the reported
/// throttle as they were.
pub proof fn lemma_failure_keeps_duty(s: BridgeState, command: Command)
    ensures
        with_directions(s, command).duty == s.duty,
        with_directions(s, command).max_duty == s.max_duty,
        with_directions(s, command).throttle == s.throttle,
        with_first_direction(s, command).duty == s.duty,
        with_first_direction(s, command).max_duty == s.max_duty,
        with_first_direction(s, command).throttle == s.throttle,
        s.duty_follows_throttle() ==> with_directions(s, command).duty_follows_throttle()
            && with_first_direction(s, command).duty_follows_throttle(),
{
}

/// Driver for one half of an L298N dual full-bridge.
///
/// `dir1` and `dir2` are the direction inputs, `enable` is the PWM output
/// on the enable input. With the enable input active the chip reads the
/// direction inputs as follows:
///
/// | dir1 | dir2 | function        |
/// |------|------|-----------------|
/// | high | low  | forward         |
/// | low  | high | reverse         |
/// | high | high | fast motor stop |
/// | low  | low  | fast motor stop |
///
/// With the enable input at zero duty the motor runs free.
pub struct L298NHBridge<P1, P2, EN> where
    P1: DigitalOutput,
    P2: DigitalOutput<Error = P1::Error>,
    EN: PwmOutput,
 {
    dir1: RecordedLine<P1>,
    dir2: RecordedLine<P2>,
    enable: RecordedPwm<EN>,
    throttle: u16,
}

impl<P1, P2, EN> View for L298NHBridge<P1, P2, EN> where
    P1: DigitalOutput,
    P2: DigitalOutput<Error = P1::Error>,
    EN: PwmOutput,
 {
    type V = BridgeState;

    closed spec fn view(&self) -> BridgeState {
        BridgeState {
            dir1: self.dir1.level(),
            dir2: self.dir2.level(),
            duty: self.enable.duty(),
            max_duty: self.enable.max_duty(),
            throttle: self.throttle,
        }
    }
}

impl<P1, P2, EN> L298NHBridge<P1, P2, EN> where
    P1: DigitalOutput,
    P2: DigitalOutput<Error = P1::Error>,
    EN: PwmOutput,
 {
    /// The output on the first direction input.
    pub closed spec fn dir1(&self) -> P1 {
        self.dir1.output()
    }

    /// The output on the second direction input.
    pub closed spec fn dir2(&self) -> P2 {
        self.dir2.output()
    }

    /// The output on the enable input.
    pub closed spec fn enable(&self) -> EN {
        self.enable.output()
    }

    /// The enable output took a write of zero duty and gave `failure` for
    /// it.
    pub open spec fn refused(enable: EN, failure: EN::Error) -> bool {
        exists|after: EN| #[trigger] enable.writes(0u16, Some(failure), &after)
    }

    /// What became of the two direction outputs between `self` and
    /// `after`. With no `levels` they are as they were. Else, with no
    /// `failure`, each took one write of its level, and the writes went
    /// through; with a `failure`, it is what the first output gave for its
    /// write, the second being as it was, or what the second gave after
    /// the first had taken its write.
    pub open spec fn lines_written(
        &self,
        levels: Option<(Level, Level)>,
        failure: Option<P1::Error>,
        after: &Self,
    ) -> bool {
        match (levels, failure) {
            (None, None) => after.dir1() == self.dir1() && after.dir2() == self.dir2(),
            (None, Some(_)) => false,
            (Some((first, second)), None) => {
                &&& self.dir1().drives(first, None, &after.dir1())
                &&& self.dir2().drives(second, None, &after.dir2())
            },
            (Some((first, second)), Some(e)) => {
                ||| self.dir1().drives(first, Some(e), &after.dir1()) && after.dir2()
                    == self.dir2()
                ||| self.dir1().drives(first, None, &after.dir1()) && self.dir2().drives(
                    second,
                    Some(e),
                    &after.dir2(),
                )
            },
        }
    }

    /// What became of the enable output between `self` and `after`: it
    /// gave a largest duty and took one write of `throttle` scaled to it.
    /// With no `failure` the write went through and that largest duty is
    /// the one that `after` holds; else `failure` is what the output gave
    /// for the write.
    pub open spec fn duty_written(
        &self,
        throttle: u16,
        failure: Option<EN::Error>,
        after: &Self,
    ) -> bool {
        match failure {
            None => {
                &&& self.enable().gives_max(after@.max_duty)
                &&& self.enable().writes(
                    native_duty(after@.max_duty, throttle),
                    None,
                    &after.enable(),
                )
            },
            Some(e) => exists|max: u16|
                {
                    &&& #[trigger] self.enable().gives_max(max)
                    &&& self.enable().writes(native_duty(max, throttle), Some(e), &after.enable())
                },
        }
    }

    /// What a call that ended in `r` did to the outputs between `self` and
    /// `after`, when it was to drive the direction inputs to `levels` and
    /// then to write `throttle`: every write up to the first that failed,
    /// and none after it. The error in `r` is the one that the output
    /// gave.
    pub open spec fn outputs_written(
        &self,
        levels: Option<(Level, Level)>,
        throttle: u16,
        r: Result<(), Error<P1::Error, EN::Error>>,
        after: &Self,
    ) -> bool {
        match r {
            Ok(_) => self.lines_written(levels, None, after) && self.duty_written(
                throttle,
                None,
                after,
            ),
            Err(Error::PinError(e)) => self.lines_written(levels, Some(e), after) && after.enable()
                == self.enable(),
            Err(Error::PwmError(e)) => self.lines_written(levels, None, after)
                && self.duty_written(throttle, Some(e), after),
            Err(Error::InitError(_)) => false,
        }
    }

    /// Builds a driver and takes the enable input to zero duty. The
    /// direction inputs are not written to. An error is the one that the
    /// enable output gave for the write.
    pub fn new(dir1: P1, dir2: P2, enable: EN) -> (r: Result<Self, Error<P1::Error, EN::Error>>)
        ensures
            match r {
                Ok(bridge) => {
                    &&& bridge@.dir1 is None
                    &&& bridge@.dir2 is None
                    &&& bridge@.duty == Some(0u16)
                    &&& bridge@.throttle == 0
                    &&& bridge@.duty_follows_throttle()
                    &&& bridge.dir1() == dir1
                    &&& bridge.dir2() == dir2
                    &&& enable.writes(0u16, None, &bridge.enable())
                },
                Err(Error::InitError(_)) => true,
                Err(_) => false,
            },
            r matches Err(Error::InitError(e)) ==> Self::refused(enable, e),
    {
        let mut output = RecordedPwm::new(enable);
        match output.set_zero() {
            Ok(()) => {
                proof {
                    lemma_scaled_duty_ends(output.max_duty() as int);
                }
                Ok(
                    L298NHBridge {
                        dir1: RecordedLine::new(dir1),
                        dir2: RecordedLine::new(dir2),
                        enable: output,
                        throttle: 0u16,
                    },
                )
            },
            Err(e) => {
                assert(enable.writes(0u16, Some(e), &output.output()));
                Err(Error::InitError(e))
            },
        }
    }

    /// Carries out `command`: first the direction inputs, the first before
    /// the second, then the duty, then the reported throttle. The first
    /// write that fails ends the call, and what was written before it
    /// stays written. Each output takes at most one write, and an error is
    /// the one that the output gave.
    pub fn set(&mut self, command: Command) -> (r: Result<(), Error<P1::Error, EN::Error>>)
        ensures
            match r {
                Ok(()) => final(self)@ == commanded(old(self)@, command, final(self)@.max_duty),
                Err(Error::PinError(_)) => direction_levels(command) is Some && (final(self)@ == old(
                    self,
                )@ || final(self)@ == with_first_direction(old(self)@, command)),
                Err(Error::PwmError(_)) => final(self)@ == with_directions(old(self)@, command),
                Err(Error::InitError(_)) => false,
            },
            old(self)@.duty_follows_throttle() ==> final(self)@.duty_follows_throttle(),
            r is Ok ==> final(self)@.duty_follows_throttle(),
            old(self).outputs_written(
                direction_levels(command),
                commanded_throttle(command),
                r,
                final(self),
            ),
    {
        match command {
            Command::Drive { direction, throttle } => {
                match direction {
                    Direction::Forward => self.forward()?,
                    Direction::Reverse => self.reverse()?,
                }
                self.set_throttle(throttle)?;
            },
            Command::Stop(stop_mode) => {
                match stop_mode {
                    StopMode::Brake => self.fast_motor_stop()?,
                    StopMode::Coast => self.free_running_motor_stop()?,
                }
            },
        }
        Ok(())
    }

    /// The throttle that was last commanded with success: that of the last
    /// drive, 65535 after a brake, 0 after a coast or before any command.
    pub fn get_throttle(&self) -> (throttle: u16)
        ensures
            throttle == self@.throttle,
    {
        self.throttle
    }

    /// Writes the duty for `throttle` to the enable input and, once that
    /// is done, reports `throttle`.
    fn set_throttle(&mut self, throttle: u16) -> (r: Result<(), Error<P1::Error, EN::Error>>)
        ensures
            match r {
                Ok(()) => final(self)@ == (BridgeState {
                    duty: Some(native_duty(final(self)@.max_duty, throttle)),
                    max_duty: final(self)@.max_duty,
                    throttle,
                    ..old(self)@
                }),
                Err(Error::PwmError(_)) => final(self)@ == old(self)@,
                Err(_) => false,
            },
            r is Ok ==> final(self)@.duty_follows_throttle(),
            old(self).outputs_written(None, throttle, r, final(self)),
    {
        let max = self.enable.max_duty_cycle();
        let duty = duty_from_fullscale(max, throttle);
        match self.enable.set_duty_cycle(duty, max) {
            Ok(()) => {
                self.throttle = throttle;
                Ok(())
            },
            Err(e) => {
                assert(old(self).enable().gives_max(max) && old(self).enable().writes(
                    native_duty(max, throttle),
                    Some(e),
                    &self.enable(),
                ));
                Err(Error::PwmError(e))
            },
        }
    }

    /// Puts the bridge into forward mode: first input high, second low.
    fn forward(&mut self) -> (r: Result<(), Error<P1::Error, EN::Error>>)
        ensures
            old(self).directions_written(r, Level::High, Level::Low, final(self)),
    {
        if let Err(e) = self.dir1.set_high() {
            return Err(Error::PinError(e));
        }
        if let Err(e) = self.dir2.set_low() {
            return Err(Error::PinError(e));
        }
        Ok(())
    }

    /// Puts the bridge into reverse mode: first input low, second high.
    fn reverse(&mut self) -> (r: Result<(), Error<P1::Error, EN::Error>>)
        ensures
            old(self).directions_written(r, Level::Low, Level::High, final(self)),
    {
        if let Err(e) = self.dir1.set_low() {
            return Err(Error::PinError(e));
        }
        if let Err(e) = self.dir2.set_high() {
            return Err(Error::PinError(e));
        }
        Ok(())
    }

    /// Puts the bridge into fast motor stop: both direction inputs high,
    /// then the enable input fully active.
    fn fast_motor_stop(&mut self) -> (r: Result<(), Error<P1::Error, EN::Error>>)
        ensures
            match r {
                Ok(()) => final(self)@ == commanded(
                    old(self)@,
                    Command::Stop(StopMode::Brake),
                    final(self)@.max_duty,
                ),
                Err(Error::PinError(_)) => final(self)@ == old(self)@ || final(self)@ == (
                BridgeState { dir1: Some(Level::High), ..old(self)@ }),
                Err(Error::PwmError(_)) => final(self)@ == (BridgeState {
                    dir1: Some(Level::High),
                    dir2: Some(Level::High),
                    ..old(self)@
                }),
                Err(Error::InitError(_)) => false,
            },
            old(self).outputs_written(
                Some((Level::High, Level::High)),
                0xFFFFu16,
                r,
                final(self),
            ),
    {
        if let Err(e) = self.dir1.set_high() {
            return Err(Error::PinError(e));
        }
        if let Err(e) = self.dir2.set_high() {
            return Err(Error::PinError(e));
        }
        assert(old(self).lines_written(Some((Level::High, Level::High)), None, self));
        assert(self.enable() == old(self).enable());
        self.set_throttle(FULLSCALE)
    }

    /// Puts the bridge into free running motor stop: the enable input at
    /// zero duty, the direction inputs as they are.
    fn free_running_motor_stop(&mut self) -> (r: Result<(), Error<P1::Error, EN::Error>>)
        ensures
            match r {
                Ok(()) => final(self)@ == commanded(
                    old(self)@,
                    Command::Stop(StopMode::Coast),
                    final(self)@.max_duty,
                ),
                Err(Error::PwmError(_)) => final(self)@ == old(self)@,
                Err(_) => false,
            },
            old(self).outputs_written(None, 0u16, r, final(self)),
    {
        self.set_throttle(0u16)
    }

    /// What a call that drives the direction inputs to `first` and
    /// `second` leaves behind in `after`, by its result `r`: both written;
    /// or, with a pin error, none or only the first.
    closed spec fn directions_written(
        &self,
        r: Result<(), Error<P1::Error, EN::Error>>,
        first: Level,
        second: Level,
        after: &Self,
    ) -> bool {
        &&& match r {
            Ok(()) => after@ == (BridgeState { dir1: Some(first), dir2: Some(second), ..self@ })
                && self.lines_written(Some((first, second)), None, after),
            Err(Error::PinError(e)) => (after@ == self@ || after@ == (BridgeState {
                dir1: Some(first),
                ..self@
            })) && self.lines_written(Some((first, second)), Some(e), after),
            Err(_) => false,
        }
        &&& after.enable() == self.enable()
    }
}

} // verus!
