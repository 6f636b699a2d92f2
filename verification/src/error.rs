//! The error taxonomy shared by every chunk parser.

use vstd::prelude::*;

verus! {

/// What the byte source itself reported when an operation failed.
#[derive(Clone, Copy, Debug, PartialEq, Eq, Structural)]
pub enum IoErrorKind {
    /// A read asked for more bytes than the source still holds.
    UnexpectedEof,
    /// A seek named a position outside the source.
    SeekOutOfRange,
}

/// Error type common to all chunk parsers.
#[derive(Clone, Copy, Debug, PartialEq, Eq, Structural)]
pub enum Error {
    /// The underlying byte source failed.
    IoError(IoErrorKind),
    /// General parser error: a chunk body's declared size disagreed with the
    /// cursor movement it caused, or a region's declared extent was violated.
    ParseError,
    /// An offset or size computation would exceed the range of the size type.
    SizeOverflow,
    /// A decoded value differed from the value the caller expected.
    UnexpectedValue,
    /// A collaborator contract was invoked without a concrete implementation.
    Unimplemented,
    /// A chunk type that a body function does not recognise.
    UnknownChunk,
}

impl From<IoErrorKind> for Error {
    /// Wrap a byte-source failure in the common error type.
    fn from(kind: IoErrorKind) -> (e: Error) {
        Error::IoError(kind)
    }
}

impl vstd::std_specs::convert::FromSpecImpl<IoErrorKind> for Error {
    open spec fn obeys_from_spec() -> bool {
        true
    }

    open spec fn from_spec(kind: IoErrorKind) -> Error {
        Error::IoError(kind)
    }
}

} // verus!
