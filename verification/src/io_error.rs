//! A transport failure as plain data: the category the core tells apart and
//! the text it reports.

use vstd::prelude::*;
use vstd::string::StringExecFns;

verus! {

/// The category of a transport failure.
#[derive(Clone, Copy, Debug, PartialEq, Eq, Structural)]
pub enum ErrorKind {
    NotFound,
    PermissionDenied,
    ConnectionRefused,
    ConnectionReset,
    ConnectionAborted,
    NotConnected,
    AddrInUse,
    AddrNotAvailable,
    BrokenPipe,
    AlreadyExists,
    /// The operation cannot complete now; the descriptor is not ready.
    WouldBlock,
    InvalidInput,
    InvalidData,
    TimedOut,
    WriteZero,
    Interrupted,
    Unsupported,
    UnexpectedEof,
    OutOfMemory,
    Other,
}

/// A failure reported by the transport, or raised by the core in its place.
#[derive(Debug, PartialEq, Eq)]
pub struct IoError {
    pub kind: ErrorKind,
    pub message: String,
}

/// What an [`IoError`] is: its kind and the characters of its message.
pub struct IoErrorView {
    pub kind: ErrorKind,
    pub message: Seq<char>,
}

impl View for IoError {
    type V = IoErrorView;

    open spec fn view(&self) -> IoErrorView {
        IoErrorView { kind: self.kind, message: self.message@ }
    }
}

/// The view of the outcome of a transport operation that yields a `T`.
pub open spec fn io_result_view<T>(r: Result<T, IoError>) -> Result<T, IoErrorView> {
    match r {
        Ok(t) => Ok(t),
        Err(e) => Err(e@),
    }
}

impl Clone for IoError {
    fn clone(&self) -> (e: IoError)
        ensures
            e@ == self@,
    {
        IoError { kind: self.kind, message: self.message.clone() }
    }
}

impl IoError {
    /// A failure of the given kind with the given message.
    pub fn new(kind: ErrorKind, message: &str) -> (e: IoError)
        ensures
            e@ == (IoErrorView { kind, message: message@ }),
    {
        IoError { kind, message: String::from_str(message) }
    }

    /// The category of this failure.
    pub fn kind(&self) -> (kind: ErrorKind)
        ensures
            kind == self@.kind,
    {
        self.kind
    }

    /// Whether this failure only says that the descriptor is not ready.
    pub fn is_would_block(&self) -> (b: bool)
        ensures
            b == (self@.kind == ErrorKind::WouldBlock),
    {
        self.kind == ErrorKind::WouldBlock
    }

    /// The text of this failure.
    pub fn to_string(&self) -> (text: String)
        ensures
            text@ == self@.message,
    {
        self.message.clone()
    }
}

} // verus!
