//! The failures that a clipboard operation reports.

use vstd::prelude::*;

verus! {

/// The five kinds of failure.
#[derive(Clone, Copy, Debug, PartialEq, Eq, Structural)]
pub enum ErrorKind {
    /// The native clipboard reported an error.
    PlatformFailure,
    /// The bridge utility could not be started.
    SubprocessSpawnFailed,
    /// A stream of the bridge utility could not be had or used.
    SubprocessIoUnavailable,
    /// The bridge utility did not end with success.
    SubprocessExitFailure,
    /// The operation is not defined for the transport.
    UnsupportedOperation,
}

/// A failure of a clipboard operation, with a message for people.
#[derive(Debug, PartialEq, Eq)]
pub enum ClipboardError {
    /// The native clipboard reported an error.
    PlatformFailure(String),
    /// The bridge utility could not be started.
    SubprocessSpawnFailed(String),
    /// A stream of the bridge utility could not be had or used.
    SubprocessIoUnavailable(String),
    /// The bridge utility did not end with success.
    SubprocessExitFailure(String),
    /// The operation is not defined for the transport.
    UnsupportedOperation(String),
}

/// A failure as a kind and the characters of its message.
pub struct Failure {
    pub kind: ErrorKind,
    pub message: Seq<char>,
}

impl View for ClipboardError {
    type V = Failure;

    open spec fn view(&self) -> Failure {
        match self {
            ClipboardError::PlatformFailure(message) => Failure {
                kind: ErrorKind::PlatformFailure,
                message: message@,
            },
            ClipboardError::SubprocessSpawnFailed(message) => Failure {
                kind: ErrorKind::SubprocessSpawnFailed,
                message: message@,
            },
            ClipboardError::SubprocessIoUnavailable(message) => Failure {
                kind: ErrorKind::SubprocessIoUnavailable,
                message: message@,
            },
            ClipboardError::SubprocessExitFailure(message) => Failure {
                kind: ErrorKind::SubprocessExitFailure,
                message: message@,
            },
            ClipboardError::UnsupportedOperation(message) => Failure {
                kind: ErrorKind::UnsupportedOperation,
                message: message@,
            },
        }
    }
}

impl Clone for ClipboardError {
    fn clone(&self) -> (copy: ClipboardError)
        ensures
            copy@ == self@,
    {
        ClipboardError::new(self.kind(), self.message().to_owned())
    }
}

impl ClipboardError {
    /// A failure of the given kind with the given message.
    pub fn new(kind: ErrorKind, message: String) -> (error: ClipboardError)
        ensures
            error@ == (Failure { kind, message: message@ }),
    {
        match kind {
            ErrorKind::PlatformFailure => ClipboardError::PlatformFailure(message),
            ErrorKind::SubprocessSpawnFailed => ClipboardError::SubprocessSpawnFailed(message),
            ErrorKind::SubprocessIoUnavailable => ClipboardError::SubprocessIoUnavailable(message),
            ErrorKind::SubprocessExitFailure => ClipboardError::SubprocessExitFailure(message),
            ErrorKind::UnsupportedOperation => ClipboardError::UnsupportedOperation(message),
        }
    }

    /// The kind of this failure.
    pub fn kind(&self) -> (kind: ErrorKind)
        ensures
            kind == self@.kind,
    {
        match self {
            ClipboardError::PlatformFailure(_) => ErrorKind::PlatformFailure,
            ClipboardError::SubprocessSpawnFailed(_) => ErrorKind::SubprocessSpawnFailed,
            ClipboardError::SubprocessIoUnavailable(_) => ErrorKind::SubprocessIoUnavailable,
            ClipboardError::SubprocessExitFailure(_) => ErrorKind::SubprocessExitFailure,
            ClipboardError::UnsupportedOperation(_) => ErrorKind::UnsupportedOperation,
        }
    }

    /// The message of this failure.
    pub fn message(&self) -> (message: &str)
        ensures
            message@ == self@.message,
    {
        match self {
            ClipboardError::PlatformFailure(message) => message.as_str(),
            ClipboardError::SubprocessSpawnFailed(message) => message.as_str(),
            ClipboardError::SubprocessIoUnavailable(message) => message.as_str(),
            ClipboardError::SubprocessExitFailure(message) => message.as_str(),
            ClipboardError::UnsupportedOperation(message) => message.as_str(),
        }
    }
}

} // verus!
