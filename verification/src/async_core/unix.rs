//! The adapter for a connected Unix-domain stream socket.

use crate::async_core::poll::{poll_step, spec_poll_step, Interest, Poll, PollAction, PollEvent};
use crate::io_error::{IoError, IoErrorView};
use vstd::prelude::*;
use vstd::string::StringExecFns;

verus! {

/// Why an adapter could not be made.
#[derive(Debug, PartialEq, Eq)]
pub enum Error {
    /// The socket could not be put into non-blocking mode.
    SetNonblocking(IoError),
}

/// What an [`Error`] is.
pub enum ErrorView {
    SetNonblocking(IoErrorView),
}

impl View for Error {
    type V = ErrorView;

    open spec fn view(&self) -> ErrorView {
        match self {
            Error::SetNonblocking(e) => ErrorView::SetNonblocking(e@),
        }
    }
}

impl Clone for Error {
    fn clone(&self) -> (e: Error)
        ensures
            e@ == self@,
    {
        match self {
            Error::SetNonblocking(x) => Error::SetNonblocking(x.clone()),
        }
    }
}

/// The text that describes an error.
pub open spec fn spec_error_text(e: ErrorView) -> Seq<char> {
    match e {
        ErrorView::SetNonblocking(e) =>
            "An error occurred while setting the unix stream as nonblocking: "@ + e.message + "."@,
    }
}

impl Error {
    /// Describes the error in words.
    pub fn to_string(&self) -> (text: String)
        ensures
            text@ == spec_error_text(self@),
    {
        match self {
            Error::SetNonblocking(e) => String::from_str(
                "An error occurred while setting the unix stream as nonblocking: ",
            ).concat(e.message.as_str()).concat("."),
        }
    }
}

/// A Unix-domain stream socket in non-blocking mode, known by its
/// descriptor.
#[derive(Debug, PartialEq, Eq)]
pub struct UnixStream {
    fd: i32,
}

impl UnixStream {
    /// The socket's descriptor.
    pub closed spec fn spec_fd(&self) -> i32 {
        self.fd
    }

    /// Makes the adapter for the socket with descriptor `fd`, given the
    /// outcome of putting that socket into non-blocking mode. There is an
    /// adapter exactly if that succeeded.
    pub fn try_from(fd: i32, set_nonblocking: Result<(), IoError>) -> (r: Result<
        UnixStream,
        Error,
    >)
        ensures
            match set_nonblocking {
                Ok(()) => r matches Ok(stream) && stream.spec_fd() == fd,
                Err(e) => r matches Err(err) && err@ == ErrorView::SetNonblocking(e@),
            },
    {
        match set_nonblocking {
            Ok(()) => Ok(UnixStream { fd }),
            Err(e) => Err(Error::SetNonblocking(e)),
        }
    }

    /// The socket's descriptor.
    #[verifier::when_used_as_spec(spec_fd)]
    pub fn as_raw_fd(&self) -> (fd: i32)
        ensures
            fd == self.spec_fd(),
    {
        self.fd
    }

    /// Decides how a read goes on after `event`.
    pub fn poll_read(&self, event: PollEvent) -> (action: PollAction)
        ensures
            action@ == spec_poll_step(self.spec_fd(), Interest::Read, event@),
    {
        poll_step(self.fd, Interest::Read, event)
    }

    /// Decides how a write goes on after `event`.
    pub fn poll_write(&self, event: PollEvent) -> (action: PollAction)
        ensures
            action@ == spec_poll_step(self.spec_fd(), Interest::Write, event@),
    {
        poll_step(self.fd, Interest::Write, event)
    }

    /// Flushing is always complete: a socket holds nothing back.
    pub fn poll_flush(&self) -> (r: Poll<Result<(), IoError>>)
        ensures
            r == Poll::<Result<(), IoError>>::Ready(Ok(())),
    {
        Poll::Ready(Ok(()))
    }

    /// Closing is flushing; the descriptor is released when the socket is
    /// dropped.
    pub fn poll_close(&self) -> (r: Poll<Result<(), IoError>>)
        ensures
            r == Poll::<Result<(), IoError>>::Ready(Ok(())),
    {
        self.poll_flush()
    }
}

} // verus!
