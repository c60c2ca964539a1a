//! The attempt-then-suspend rule that both adapters follow.
//!
//! An adapter tries the operation once. If the socket would block, it has a
//! waker registered for the descriptor and the direction, and reports that
//! the operation is pending; the reactor wakes the task when the descriptor
//! is ready, and the task tries again. Every other outcome is final.

use crate::io_error::{io_result_view, ErrorKind, IoError, IoErrorView};
use vstd::prelude::*;

verus! {

/// The direction in which a task waits for a descriptor.
#[derive(Clone, Copy, Debug, PartialEq, Eq, Structural)]
pub enum Interest {
    Read,
    Write,
}

/// Whether an operation has completed.
#[derive(Debug, PartialEq, Eq)]
pub enum Poll<T> {
    /// It has, with this value.
    Ready(T),
    /// It has not; the task is suspended until it is woken.
    Pending,
}

/// What happened since an adapter was last asked.
#[derive(Debug, PartialEq, Eq)]
pub enum PollEvent {
    /// One non-blocking read or write was attempted, with this outcome.
    Attempted(Result<usize, IoError>),
    /// The reactor was asked to register a waker, and did (`true`) or
    /// refused (`false`).
    Registered(bool),
}

/// What a [`PollEvent`] is.
pub enum PollEventView {
    Attempted(Result<usize, IoErrorView>),
    Registered(bool),
}

impl View for PollEvent {
    type V = PollEventView;

    open spec fn view(&self) -> PollEventView {
        match self {
            PollEvent::Attempted(r) => PollEventView::Attempted(io_result_view(*r)),
            PollEvent::Registered(ok) => PollEventView::Registered(*ok),
        }
    }
}

/// What an adapter does next.
#[derive(Debug, PartialEq, Eq)]
pub enum PollAction {
    /// Return this from the poll.
    Return(Poll<Result<usize, IoError>>),
    /// Register the task's waker with the reactor for this descriptor and
    /// direction, and report with [`PollEvent::Registered`].
    Register { fd: i32, interest: Interest },
}

/// What a [`PollAction`] is.
pub enum PollActionView {
    Return(Poll<Result<usize, IoErrorView>>),
    Register { fd: i32, interest: Interest },
}

impl View for PollAction {
    type V = PollActionView;

    open spec fn view(&self) -> PollActionView {
        match self {
            PollAction::Return(Poll::Ready(r)) => PollActionView::Return(
                Poll::Ready(io_result_view(*r)),
            ),
            PollAction::Return(Poll::Pending) => PollActionView::Return(Poll::Pending),
            PollAction::Register { fd, interest } => PollActionView::Register {
                fd: *fd,
                interest: *interest,
            },
        }
    }
}

/// The failure reported when the reactor refuses a waker.
pub open spec fn spec_waker_failure(interest: Interest) -> IoErrorView {
    match interest {
        Interest::Read => IoErrorView {
            kind: ErrorKind::Other,
            message: "failed to add read waker"@,
        },
        Interest::Write => IoErrorView {
            kind: ErrorKind::Other,
            message: "failed to add write waker"@,
        },
    }
}

/// The rule: a finished attempt is returned as it is, a would-block asks for
/// a waker, an accepted waker suspends the task, a refused one fails the
/// operation.
pub open spec fn spec_poll_step(fd: i32, interest: Interest, event: PollEventView)
    -> PollActionView {
    match event {
        PollEventView::Attempted(Ok(n)) => PollActionView::Return(Poll::Ready(Ok(n))),
        PollEventView::Attempted(Err(e)) => if e.kind == ErrorKind::WouldBlock {
            PollActionView::Register { fd, interest }
        } else {
            PollActionView::Return(Poll::Ready(Err(e)))
        },
        PollEventView::Registered(true) => PollActionView::Return(Poll::Pending),
        PollEventView::Registered(false) => PollActionView::Return(
            Poll::Ready(Err(spec_waker_failure(interest))),
        ),
    }
}

/// Decides what an adapter for descriptor `fd` does after `event`, for an
/// operation in the direction `interest`.
pub fn poll_step(fd: i32, interest: Interest, event: PollEvent) -> (action: PollAction)
    ensures
        action@ == spec_poll_step(fd, interest, event@),
{
    match event {
        PollEvent::Attempted(Ok(n)) => PollAction::Return(Poll::Ready(Ok(n))),
        PollEvent::Attempted(Err(e)) => {
            if e.is_would_block() {
                PollAction::Register { fd, interest }
            } else {
                PollAction::Return(Poll::Ready(Err(e)))
            }
        },
        PollEvent::Registered(true) => PollAction::Return(Poll::Pending),
        PollEvent::Registered(false) => {
            proof {
                reveal_strlit("failed to add read waker");
                reveal_strlit("failed to add write waker");
            }
            let failure = match interest {
                Interest::Read => IoError::new(ErrorKind::Other, "failed to add read waker"),
                Interest::Write => IoError::new(ErrorKind::Other, "failed to add write waker"),
            };
            PollAction::Return(Poll::Ready(Err(failure)))
        },
    }
}

/// A waker is asked for when an attempt would block, and never otherwise.
pub proof fn lemma_registers_only_on_would_block(fd: i32, interest: Interest, event: PollEventView)
    ensures
        spec_poll_step(fd, interest, event) is Register <==> (event matches PollEventView::Attempted(
            Err(e),
        ) && e.kind == ErrorKind::WouldBlock),
        spec_poll_step(fd, interest, event) is Register ==> spec_poll_step(fd, interest, event)
            == (PollActionView::Register { fd, interest }),
{
}

/// The readiness edge. An attempt made while the descriptor is not ready
/// asks for one waker, for this descriptor and direction, and with the waker
/// accepted the operation is pending. An attempt made once the descriptor is
/// ready, which moves `n` bytes, completes with `n` and asks for no waker.
pub proof fn lemma_readiness_edge(fd: i32, interest: Interest, not_ready: IoErrorView, n: usize)
    requires
        not_ready.kind == ErrorKind::WouldBlock,
    ensures
        spec_poll_step(fd, interest, PollEventView::Attempted(Err(not_ready))) == (
            PollActionView::Register { fd, interest }),
        spec_poll_step(fd, interest, PollEventView::Registered(true)) == PollActionView::Return(
            Poll::Pending,
        ),
        spec_poll_step(fd, interest, PollEventView::Attempted(Ok(n))) == PollActionView::Return(
            Poll::Ready(Ok(n)),
        ),
{
}

} // verus!
