//! The error taxonomy of the driver.

use vstd::prelude::*;

verus! {

/// Any type of error which may occur while interacting with the device.
///
/// `E` is the transport's native bus-error payload; everything else is
/// transport-independent.
#[derive(Debug, Clone, Copy, PartialEq, Eq)]
pub enum Error<E> {
    /// Some error originating from the communication bus
    BusError(E),
    /// The message length did not match the expected value; carries the
    /// offending length
    InvalidMessageLen(usize),
    /// Reading the interrupt pin resulted in an error
    IOError,
    /// Tried to read a touch point, but no data was available
    NoDataAvailable,
    /// A decode step received a buffer whose size disagrees with the record
    /// it was to hold
    TryFromSliceError,
}

} // verus!
