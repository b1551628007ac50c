use vstd::prelude::*;

verus! {

/// The error kinds that the transfer core reports.
#[derive(Clone, Copy, Debug, PartialEq, Eq, Structural)]
pub enum TransferError {
    /// A header or payload ended before the declared number of bytes arrived.
    ShortRead,
    /// Malformed persisted data: bad hex in a sidecar, or a sidecar ahead of
    /// its payload file.
    InvalidData,
    /// An argument outside the expected form, such as non-hex digit bytes.
    InvalidInput,
    /// The finalized digest does not equal the declared digest.
    DigestMismatch,
    /// `commit` was called before all declared bytes were written.
    Incomplete,
    /// An underlying stream or filesystem operation failed.
    Io,
    /// No staging pair matches the requested filename.
    NotFound,
}

/// An opaque failure of a byte source or sink; the core carries no detail of it.
#[derive(Clone, Copy, Debug, PartialEq, Eq, Structural)]
pub struct StreamError;

} // verus!
