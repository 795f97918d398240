//! Error taxonomy of the engine.

use vstd::prelude::*;

verus! {

/// Failure of one step of the program-loading pipeline.
#[derive(Clone, Copy, Debug, PartialEq, Eq, Structural)]
pub enum LoadError {
    /// The program file could not be read (reported at the I/O boundary).
    IoError,
    /// A container's declared payload length exceeds the buffer.
    MalformedContainer,
    /// The device never reached its ready state within the driver's bound.
    DeviceTimeout,
    /// The device refused the bitstream.
    ProgramRejected,
    /// The post-programming hardware reset failed.
    ResetFailed,
    /// Core-specific setup after the reset failed.
    InstantiationFailed,
}

/// Failure of an individual core-contract operation.
#[derive(Clone, Copy, Debug, PartialEq, Eq, Structural)]
pub enum CoreError {
    /// The requested file slot is not supported by this core.
    UnsupportedSlot,
    /// A menu entry's action could not be executed.
    ActionFailed,
    /// No video frame could be captured.
    CaptureFailed,
    /// An I/O boundary failure.
    IoError,
}

/// Failure of a save-state persistence operation.
#[derive(Clone, Copy, Debug, PartialEq, Eq, Structural)]
pub enum SaveStateError {
    /// An I/O boundary failure.
    IoError,
    /// The source does not match the region's declared size exactly.
    SizeMismatch,
}

} // verus!
