//! Error values with a machine-distinguishable kind beside the native
//! status code, so callers can branch on semantics rather than on text.
use vstd::prelude::*;

verus! {

/// What went wrong, as a class a caller can branch on.
#[derive(Clone, Copy, Debug, PartialEq, Eq, Structural)]
pub enum ErrorKind {
    /// A native driver call returned a hard (non-ok, non-queue-empty)
    /// status; the code is carried alongside.
    DriverFailure,
    /// A custom acceptance filter was already installed and a second one
    /// was offered without clearing the first.
    AlreadyConfigured,
    /// The driver handed over a wire message whose flag byte, length or
    /// identifier does not describe a CAN frame.
    MalformedFrame,
}

/// An error surfaced to the caller. For driver failures `code` holds the
/// native status; the host program may render it to text through the
/// driver's own lookup facility. For the other kinds `code` is zero.
#[derive(Clone, Copy, Debug, PartialEq, Eq, Structural)]
pub struct Error {
    pub kind: ErrorKind,
    pub code: u32,
}

impl Error {
    /// Wraps a hard native status code.
    pub fn new(code: u32) -> (r: Error)
        ensures
            r == (Error { kind: ErrorKind::DriverFailure, code }),
    {
        Error { kind: ErrorKind::DriverFailure, code }
    }

    /// The rejection of a second custom filter.
    pub fn already_configured() -> (r: Error)
        ensures
            r == (Error { kind: ErrorKind::AlreadyConfigured, code: 0u32 }),
    {
        Error { kind: ErrorKind::AlreadyConfigured, code: 0 }
    }

    /// The rejection of an undecodable wire message.
    pub fn malformed_frame() -> (r: Error)
        ensures
            r == (Error { kind: ErrorKind::MalformedFrame, code: 0u32 }),
    {
        Error { kind: ErrorKind::MalformedFrame, code: 0 }
    }

    /// The class of this error.
    pub fn kind(&self) -> (r: ErrorKind)
        ensures
            r == self.kind,
    {
        self.kind
    }

    /// The native status code, zero for errors this layer raised itself.
    pub fn code(&self) -> (r: u32)
        ensures
            r == self.code,
    {
        self.code
    }
}

} // verus!
