//! The error taxonomy of the client.

use vstd::prelude::*;

use crate::response::ResponseStatus;

verus! {

/// The class of an [`Error`], used by contracts that do not care about the
/// human-readable details carried alongside.
#[derive(Clone, Copy, Debug, PartialEq, Eq, Structural)]
pub enum ErrorKind {
    /// Transport failure: connect, short or zero write, unexpected end of
    /// stream, shutdown failure. Terminal for the current connection.
    Io,
    /// An I/O primitive exceeded the configured duration.
    Timeout,
    /// A malformed frame: length prefix below the header size, a payload that
    /// is not UTF-8, or a document too large for the length field.
    Frame,
    /// Failure to build a command document or to read a response document.
    Xml,
    /// Work could not be handed to the connection task: it has already
    /// stopped.
    Closed,
    /// An explicit reconnect failed; the connection must not be reused.
    Reconnect,
    /// A structurally valid response whose result code signals failure.
    Command,
    /// Anything else.
    Other,
}

/// A structured error; every public operation reports failures with one of
/// these rather than panicking.
#[derive(Debug)]
pub enum Error {
    /// Transport failure, with a description. Terminal for the connection.
    Io(String),
    /// An I/O primitive exceeded the configured duration.
    Timeout,
    /// A malformed frame, with a description.
    Frame(String),
    /// A command could not be written as XML or a response could not be read
    /// back, with a description.
    Xml(String),
    /// The connection task is gone.
    Closed,
    /// An explicit reconnect failed.
    Reconnect,
    /// The registry answered with a non-success result code; the structured
    /// result and transaction ids are carried along.
    Command(Box<ResponseStatus>),
    /// Anything else, with a description.
    Other(String),
}

impl Error {
    /// The class of this error.
    pub open spec fn kind(&self) -> ErrorKind {
        match self {
            Error::Io(_) => ErrorKind::Io,
            Error::Timeout => ErrorKind::Timeout,
            Error::Frame(_) => ErrorKind::Frame,
            Error::Xml(_) => ErrorKind::Xml,
            Error::Closed => ErrorKind::Closed,
            Error::Reconnect => ErrorKind::Reconnect,
            Error::Command(_) => ErrorKind::Command,
            Error::Other(_) => ErrorKind::Other,
        }
    }

    /// Returns the class of this error as a value.
    pub fn classify(&self) -> (k: ErrorKind)
        ensures
            k == self.kind(),
    {
        match self {
            Error::Io(_) => ErrorKind::Io,
            Error::Timeout => ErrorKind::Timeout,
            Error::Frame(_) => ErrorKind::Frame,
            Error::Xml(_) => ErrorKind::Xml,
            Error::Closed => ErrorKind::Closed,
            Error::Reconnect => ErrorKind::Reconnect,
            Error::Command(_) => ErrorKind::Command,
            Error::Other(_) => ErrorKind::Other,
        }
    }
}

} // verus!
