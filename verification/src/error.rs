//! Error kinds of the resource layer and the fatal bytecode errors of the
//! virtual machine and the video sequencer.

use vstd::prelude::*;

verus! {

/// A recoverable resource-layer failure. Entries that fail to load are
/// downgraded to `NotNeeded`; only a failure to parse the catalog index is
/// fatal to startup.
#[derive(Debug, Clone, Copy, PartialEq, Eq, Structural)]
pub enum Error {
    /// A bank read returned the wrong number of bytes or failed outright.
    Io,
    /// A catalog record carried a state byte outside {0, 1, 2}.
    InvalidMemEntryState(u8),
    /// A catalog record named a bank outside 1..=13.
    InvalidBankId(u8),
    /// Decompression finished with a nonzero checksum register.
    CrcCheckFailed,
    /// The packed stream ran out, or drove the decoder outside its buffers.
    InputBufferDrained,
}

/// A fatal bytecode error: the program fed to the virtual machine or the
/// polygon decoder is malformed. The host is expected to abort on these.
#[derive(Debug, Clone, Copy, PartialEq, Eq, Structural)]
pub enum FatalError {
    /// An instruction or polygon read reached past the end of its buffer.
    OutOfRangeRead,
    /// The opcode byte matches no instruction.
    InvalidOpcode(u8),
    /// A `Call` was executed with the call stack full.
    StackOverflow,
    /// A `Ret` was executed with the call stack empty.
    StackUnderflow,
    /// A thread-reset range ran backwards.
    InvalidThreadRange,
    /// An instruction named a thread outside the 64-entry table.
    InvalidThreadId(u8),
    /// A polygon node carried a mode byte that is neither a leaf nor a group.
    InvalidPolygonMode(u8),
    /// A polygon leaf declared more vertices than a polygon can carry.
    TooManyVertices,
    /// A polygon tree nested deeper than the decoder allows.
    PolygonTreeTooDeep,
    /// A thread ran longer than one timeslice allows without yielding:
    /// runaway bytecode under a cooperative scheduler.
    TimesliceExceeded,
    /// A draw referred to a cinematic or alternate video buffer that is not
    /// loaded.
    MissingResource,
}

} // verus!
