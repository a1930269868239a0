//! Error types of the driver. Every sequencer operation is fallible;
//! recoverable conditions are returned, never panicked on, and no retry
//! is attempted at this layer.

use vstd::prelude::*;

verus! {

/// A transport failure reported by the bus. The driver propagates it
/// unchanged; retry policy belongs to the transport or the caller.
#[derive(Clone, Copy, Debug, PartialEq, Eq, Structural)]
pub struct BusError;

/// What a sequencer operation can fail with.
#[derive(Clone, Copy, Debug, PartialEq, Eq, Structural)]
pub enum DriverError {
    /// the bus transport failed; propagated unchanged
    Bus(BusError),
    /// a read's trailing checksum byte did not match the computed value
    /// over the preceding data bytes; the read was rejected whole
    ChecksumMismatch,
    /// a read succeeded but carried a value other than the known constant,
    /// such as a manufacturer ID that is not the expected identity
    UnexpectedValue(u16),
}

} // verus!
