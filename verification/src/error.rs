//! What can go wrong in the driver.

use vstd::prelude::*;

verus! {

/// A failed write, with the error that the output gave.
///
/// `P` is the error type of the two direction outputs, `W` that of the PWM
/// output.
#[derive(Debug, PartialEq, Eq)]
pub enum Error<P, W> {
    /// The PWM output refused the zero duty that construction writes.
    InitError(W),
    /// A write to a direction output failed.
    PinError(P),
    /// A write of a duty failed.
    PwmError(W),
}

} // verus!
