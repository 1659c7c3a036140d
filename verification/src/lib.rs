//! Driver for one half of an L298N dual full-bridge motor controller.
//!
//! The bridge has two direction inputs and one enable input that is driven
//! by a PWM output. A [`Command`] is turned into writes on those three
//! lines; every write may fail, and a failure is handed to the caller.
//!
//! - [`command`]: what can be asked of the motor.
//! - [`capability`]: the two kinds of output that the caller supplies.
//! - [`recorded`]: an output together with what it last acknowledged,
//!   which is what the contracts call its level or its duty.
//! - [`scale`]: from a fullscale throttle to the duty range of an output.
//! - [`bridge`]: the driver, with the state that each command leaves.
//! - [`error`]: the three ways in which a write can fail.

pub mod bridge;
pub mod capability;
pub mod command;
pub mod error;
pub mod recorded;
pub mod scale;

pub use bridge::{BridgeState, L298NHBridge};
pub use capability::{DigitalOutput, Level, PwmOutput};
pub use command::{Command, Direction, StopMode};
pub use error::Error;
