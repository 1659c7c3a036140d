//! What a caller can ask of the motor.

use vstd::prelude::*;

verus! {

/// The direction in which the bridge drives the motor.
#[derive(Clone, Copy, Debug, PartialEq, Eq, Structural)]
pub enum Direction {
    Forward,
    Reverse,
}

/// The two ways to stop the motor.
///
/// `Brake` is the chip's fast motor stop: both direction inputs are held
/// high. `Coast` is its free running motor stop: the enable input is taken
/// to zero duty and the direction inputs are left as they are.
#[derive(Clone, Copy, Debug, PartialEq, Eq, Structural)]
pub enum StopMode {
    Brake,
    Coast,
}

/// A command sent to the motor driver.
///
/// `throttle` is a fullscale value: 0 is no throttle, 65535 is the maximum.
#[derive(Clone, Copy, Debug, PartialEq, Eq, Structural)]
pub enum Command {
    Drive { direction: Direction, throttle: u16 },
    Stop(StopMode),
}

} // verus!
