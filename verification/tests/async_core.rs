//! The stream adapters, driven against a socket and a reactor that live in
//! memory.

use std::collections::VecDeque;

use vsh::async_core::poll::{poll_step, Interest, Poll, PollAction, PollEvent};
use vsh::async_core::unix::{Error, UnixStream};
use vsh::async_core::vsock::{Error as VsockError, VsockStream};
use vsh::io_error::{ErrorKind, IoError};

/// A non-blocking socket: a read from an empty socket would block, a write
/// to a full one too.
struct Socket {
    bytes: VecDeque<u8>,
    room: usize,
}

impl Socket {
    fn read(&mut self, buf: &mut [u8]) -> Result<usize, IoError> {
        if self.bytes.is_empty() {
            return Err(IoError::new(ErrorKind::WouldBlock, "operation would block"));
        }
        let mut n = 0;
        while n < buf.len() && !self.bytes.is_empty() {
            buf[n] = self.bytes.pop_front().unwrap();
            n += 1;
        }
        Ok(n)
    }

    fn write(&mut self, buf: &[u8]) -> Result<usize, IoError> {
        if self.room == 0 {
            return Err(IoError::new(ErrorKind::WouldBlock, "operation would block"));
        }
        let n = buf.len().min(self.room);
        self.bytes.extend(buf[..n].iter().copied());
        self.room -= n;
        Ok(n)
    }
}

/// A reactor that records what was registered with it, and can be told to
/// refuse.
struct Reactor {
    registered: Vec<(i32, Interest)>,
    refuse: bool,
}

impl Reactor {
    fn add_waker(&mut self, fd: i32, interest: Interest) -> bool {
        if self.refuse {
            return false;
        }
        self.registered.push((fd, interest));
        true
    }
}

/// One poll of a read on `stream`: attempt, then do what the adapter says.
fn poll_read(
    stream: &UnixStream,
    socket: &mut Socket,
    reactor: &mut Reactor,
    buf: &mut [u8],
) -> Poll<Result<usize, IoError>> {
    let mut action = stream.poll_read(PollEvent::Attempted(socket.read(buf)));
    loop {
        action = match action {
            PollAction::Return(poll) => return poll,
            PollAction::Register { fd, interest } => {
                stream.poll_read(PollEvent::Registered(reactor.add_waker(fd, interest)))
            }
        };
    }
}

/// One poll of a write on `stream`.
fn poll_write(
    stream: &UnixStream,
    socket: &mut Socket,
    reactor: &mut Reactor,
    buf: &[u8],
) -> Poll<Result<usize, IoError>> {
    let mut action = stream.poll_write(PollEvent::Attempted(socket.write(buf)));
    loop {
        action = match action {
            PollAction::Return(poll) => return poll,
            PollAction::Register { fd, interest } => {
                stream.poll_write(PollEvent::Registered(reactor.add_waker(fd, interest)))
            }
        };
    }
}

#[test]
fn async_rw() {
    let stream1 = UnixStream::try_from(3, Ok(())).unwrap();
    let stream2 = UnixStream::try_from(4, Ok(())).unwrap();
    let mut socket = Socket { bytes: VecDeque::new(), room: 64 };
    let mut reactor = Reactor { registered: Vec::new(), refuse: false };

    // The reader runs first and finds nothing: it is suspended.
    let mut buf = vec![0u8; 3];
    assert_eq!(poll_read(&stream1, &mut socket, &mut reactor, &mut buf), Poll::Pending);
    assert_eq!(reactor.registered, vec![(3, Interest::Read)]);

    // The writer sends all of "foo".
    let foo = "foo";
    assert_eq!(
        poll_write(&stream2, &mut socket, &mut reactor, foo.as_bytes()),
        Poll::Ready(Ok(3))
    );

    // The reader is woken and reads it without registering again.
    assert_eq!(poll_read(&stream1, &mut socket, &mut reactor, &mut buf), Poll::Ready(Ok(3)));
    assert_eq!(reactor.registered.len(), 1);
    let s = String::from_utf8(buf).unwrap();
    assert_eq!(s, "foo");
}

#[test]
fn short_read_makes_progress_then_suspends_again() {
    let stream = UnixStream::try_from(5, Ok(())).unwrap();
    let mut socket = Socket { bytes: VecDeque::from(vec![b'f', b'o']), room: 64 };
    let mut reactor = Reactor { registered: Vec::new(), refuse: false };

    let mut buf = [0u8; 3];
    assert_eq!(poll_read(&stream, &mut socket, &mut reactor, &mut buf), Poll::Ready(Ok(2)));
    assert!(reactor.registered.is_empty());
    assert_eq!(poll_read(&stream, &mut socket, &mut reactor, &mut buf[2..]), Poll::Pending);
    assert_eq!(reactor.registered, vec![(5, Interest::Read)]);
    socket.bytes.push_back(b'o');
    assert_eq!(poll_read(&stream, &mut socket, &mut reactor, &mut buf[2..]), Poll::Ready(Ok(1)));
    assert_eq!(&buf, b"foo");
    assert_eq!(reactor.registered.len(), 1);
}

#[test]
fn full_socket_suspends_the_writer() {
    let stream = UnixStream::try_from(6, Ok(())).unwrap();
    let mut socket = Socket { bytes: VecDeque::new(), room: 0 };
    let mut reactor = Reactor { registered: Vec::new(), refuse: false };
    assert_eq!(poll_write(&stream, &mut socket, &mut reactor, b"foo"), Poll::Pending);
    assert_eq!(reactor.registered, vec![(6, Interest::Write)]);
}

#[test]
fn refused_waker_fails_the_operation() {
    let stream = UnixStream::try_from(7, Ok(())).unwrap();
    let mut socket = Socket { bytes: VecDeque::new(), room: 0 };
    let mut reactor = Reactor { registered: Vec::new(), refuse: true };
    let mut buf = [0u8; 3];
    assert_eq!(
        poll_read(&stream, &mut socket, &mut reactor, &mut buf),
        Poll::Ready(Err(IoError::new(ErrorKind::Other, "failed to add read waker")))
    );
    assert_eq!(
        poll_write(&stream, &mut socket, &mut reactor, b"foo"),
        Poll::Ready(Err(IoError::new(ErrorKind::Other, "failed to add write waker")))
    );
}

#[test]
fn other_failures_are_returned_without_a_waker() {
    let stream = VsockStream::try_from(8, Ok(())).unwrap();
    let reset = IoError::new(ErrorKind::ConnectionReset, "connection reset by peer");
    assert_eq!(
        stream.poll_read(PollEvent::Attempted(Err(reset.clone()))),
        PollAction::Return(Poll::Ready(Err(reset.clone())))
    );
    assert_eq!(
        stream.poll_write(PollEvent::Attempted(Err(reset.clone()))),
        PollAction::Return(Poll::Ready(Err(reset)))
    );
}

#[test]
fn end_of_stream_is_a_read_of_zero_bytes() {
    let stream = VsockStream::try_from(8, Ok(())).unwrap();
    assert_eq!(
        stream.poll_read(PollEvent::Attempted(Ok(0))),
        PollAction::Return(Poll::Ready(Ok(0)))
    );
}

#[test]
fn would_block_asks_for_a_waker_on_the_adapters_descriptor() {
    let unix = UnixStream::try_from(11, Ok(())).unwrap();
    let vsock = VsockStream::try_from(12, Ok(())).unwrap();
    let busy = IoError::new(ErrorKind::WouldBlock, "try again");
    assert_eq!(
        unix.poll_read(PollEvent::Attempted(Err(busy.clone()))),
        PollAction::Register { fd: 11, interest: Interest::Read }
    );
    assert_eq!(
        unix.poll_write(PollEvent::Attempted(Err(busy.clone()))),
        PollAction::Register { fd: 11, interest: Interest::Write }
    );
    assert_eq!(
        vsock.poll_read(PollEvent::Attempted(Err(busy.clone()))),
        PollAction::Register { fd: 12, interest: Interest::Read }
    );
    assert_eq!(
        vsock.poll_write(PollEvent::Attempted(Err(busy))),
        PollAction::Register { fd: 12, interest: Interest::Write }
    );
    assert_eq!(unix.poll_read(PollEvent::Registered(true)), PollAction::Return(Poll::Pending));
    assert_eq!(vsock.poll_write(PollEvent::Registered(true)), PollAction::Return(Poll::Pending));
}

#[test]
fn poll_step_is_the_rule_of_both_adapters() {
    let unix = UnixStream::try_from(21, Ok(())).unwrap();
    assert_eq!(
        poll_step(21, Interest::Read, PollEvent::Attempted(Ok(17))),
        unix.poll_read(PollEvent::Attempted(Ok(17)))
    );
    assert_eq!(
        poll_step(21, Interest::Write, PollEvent::Registered(false)),
        unix.poll_write(PollEvent::Registered(false))
    );
}

#[test]
fn flush_and_close_are_always_ready() {
    let unix = UnixStream::try_from(9, Ok(())).unwrap();
    assert_eq!(unix.poll_flush(), Poll::Ready(Ok(())));
    assert_eq!(unix.poll_close(), Poll::Ready(Ok(())));
    let vsock = VsockStream::try_from(10, Ok(())).unwrap();
    assert_eq!(vsock.poll_flush(), Poll::Ready(Ok(())));
    assert_eq!(vsock.poll_close(), Poll::Ready(Ok(())));
}

#[test]
fn adapter_needs_non_blocking_mode() {
    let denied = IoError::new(ErrorKind::PermissionDenied, "Operation not permitted (os error 1)");
    let err = UnixStream::try_from(3, Err(denied.clone())).unwrap_err();
    assert_eq!(err, Error::SetNonblocking(denied.clone()));
    assert_eq!(
        err.to_string(),
        "An error occurred while setting the unix stream as nonblocking: Operation not permitted (os error 1)."
    );
    let err = VsockStream::try_from(3, Err(denied.clone())).unwrap_err();
    assert_eq!(err, VsockError::SetNonblocking(denied));
    assert_eq!(
        err.to_string(),
        "An error occurred while setting the vsock stream as nonblocking: Operation not permitted (os error 1)."
    );
    assert_eq!(UnixStream::try_from(3, Ok(())).unwrap().as_raw_fd(), 3);
    assert_eq!(VsockStream::try_from(4, Ok(())).unwrap().as_raw_fd(), 4);
}
