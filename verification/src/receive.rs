//! The receive side of the protocol: header, payload, parse.

use crate::frame::{decode_header, spec_frame_len, VSH_BUF_SIZE};
use crate::io_error::{io_result_view, IoError, IoErrorView};
use crate::vsh_wire::{schema_result_view, wire_result_view, VshWireError, VshWireErrorView};
use vstd::prelude::*;

verus! {

/// Where a receiver stands within one message.
#[derive(Clone, Copy, Debug, PartialEq, Eq, Structural)]
pub enum ReceiveState {
    /// The next thing on the wire is a header.
    AwaitHeader,
    /// A header announced this many payload bytes; they are being read.
    AwaitPayload(usize),
    /// This many payload bytes are in the receive buffer, at the schema.
    AwaitParse(usize),
}

impl ReceiveState {
    /// The payload length of the frame in progress; 0 between frames.
    pub open spec fn frame_len(self) -> nat {
        match self {
            ReceiveState::AwaitHeader => 0,
            ReceiveState::AwaitPayload(n) => n as nat,
            ReceiveState::AwaitParse(n) => n as nat,
        }
    }
}

/// How the operation that a receiver asked for ended.
#[derive(Debug, PartialEq, Eq)]
pub enum ReceiveEvent {
    /// Nothing happened yet; the caller asks what to do.
    Begin,
    /// Exactly four header bytes were read, or the read failed.
    Header(Result<[u8; 4], IoError>),
    /// The payload was read into the front of the receive buffer, or the
    /// read failed.
    Payload(Result<(), IoError>),
    /// The schema parsed the payload, or refused it.
    Parsed(Result<(), String>),
}

/// What a [`ReceiveEvent`] is.
pub enum ReceiveEventView {
    Begin,
    Header(Result<Seq<u8>, IoErrorView>),
    Payload(Result<(), IoErrorView>),
    Parsed(Result<(), Seq<char>>),
}

impl View for ReceiveEvent {
    type V = ReceiveEventView;

    open spec fn view(&self) -> ReceiveEventView {
        match self {
            ReceiveEvent::Begin => ReceiveEventView::Begin,
            ReceiveEvent::Header(Ok(h)) => ReceiveEventView::Header(Ok(h@)),
            ReceiveEvent::Header(Err(e)) => ReceiveEventView::Header(Err(e@)),
            ReceiveEvent::Payload(r) => ReceiveEventView::Payload(io_result_view(*r)),
            ReceiveEvent::Parsed(r) => ReceiveEventView::Parsed(schema_result_view(*r)),
        }
    }
}

/// What a receiver asks its caller to do next.
#[derive(Debug, PartialEq, Eq)]
pub enum ReceiveAction {
    /// Read exactly four bytes and report them with [`ReceiveEvent::Header`].
    ReadHeader,
    /// Read exactly this many bytes into the front of the receive buffer and
    /// report with [`ReceiveEvent::Payload`].
    ReadPayload(usize),
    /// Parse the payload, which has this many bytes, and report with
    /// [`ReceiveEvent::Parsed`].
    Parse(usize),
    /// The receive is over, with this outcome.
    Done(Result<(), VshWireError>),
}

/// What a [`ReceiveAction`] is.
pub enum ReceiveActionView {
    ReadHeader,
    ReadPayload(nat),
    Parse(nat),
    Done(Result<(), VshWireErrorView>),
}

impl View for ReceiveAction {
    type V = ReceiveActionView;

    open spec fn view(&self) -> ReceiveActionView {
        match self {
            ReceiveAction::ReadHeader => ReceiveActionView::ReadHeader,
            ReceiveAction::ReadPayload(n) => ReceiveActionView::ReadPayload(*n as nat),
            ReceiveAction::Parse(n) => ReceiveActionView::Parse(*n as nat),
            ReceiveAction::Done(r) => ReceiveActionView::Done(wire_result_view(*r)),
        }
    }
}

/// The operation that is outstanding in a state.
pub open spec fn spec_receive_pending(state: ReceiveState) -> ReceiveActionView {
    match state {
        ReceiveState::AwaitHeader => ReceiveActionView::ReadHeader,
        ReceiveState::AwaitPayload(n) => ReceiveActionView::ReadPayload(n as nat),
        ReceiveState::AwaitParse(n) => ReceiveActionView::Parse(n as nat),
    }
}

/// The receiver's answer to a header that was read: a payload read of the
/// length announced, or, where that is more than a frame carries, the end of
/// the receive with a frame-size violation.
pub open spec fn spec_receive_header(header: Seq<u8>) -> (ReceiveState, ReceiveActionView) {
    let len = spec_frame_len(header);
    if len > VSH_BUF_SIZE {
        (
            ReceiveState::AwaitHeader,
            ReceiveActionView::Done(Err(VshWireErrorView::InvalidFrameSize(len))),
        )
    } else {
        (ReceiveState::AwaitPayload(len as usize), ReceiveActionView::ReadPayload(len))
    }
}

/// One step of a receiver: the state it moves to and what it asks for.
pub open spec fn spec_receive_step(state: ReceiveState, event: ReceiveEventView) -> (
    ReceiveState,
    ReceiveActionView,
) {
    match (state, event) {
        (ReceiveState::AwaitHeader, ReceiveEventView::Header(Ok(header))) => spec_receive_header(
            header,
        ),
        (ReceiveState::AwaitHeader, ReceiveEventView::Header(Err(e))) => (
            ReceiveState::AwaitHeader,
            ReceiveActionView::Done(Err(VshWireErrorView::ReceiveMessage(e))),
        ),
        (ReceiveState::AwaitPayload(n), ReceiveEventView::Payload(Ok(()))) => (
            ReceiveState::AwaitParse(n),
            ReceiveActionView::Parse(n as nat),
        ),
        (ReceiveState::AwaitPayload(_), ReceiveEventView::Payload(Err(e))) => (
            ReceiveState::AwaitHeader,
            ReceiveActionView::Done(Err(VshWireErrorView::ReceiveMessage(e))),
        ),
        (ReceiveState::AwaitParse(_), ReceiveEventView::Parsed(Ok(()))) => (
            ReceiveState::AwaitHeader,
            ReceiveActionView::Done(Ok(())),
        ),
        (ReceiveState::AwaitParse(_), ReceiveEventView::Parsed(Err(m))) => (
            ReceiveState::AwaitHeader,
            ReceiveActionView::Done(Err(VshWireErrorView::DeserializeProto(m))),
        ),
        _ => (state, spec_receive_pending(state)),
    }
}

/// The receive side of a framer, without its buffer.
pub struct Receiver {
    state: ReceiveState,
}

impl Receiver {
    #[verifier::type_invariant]
    spec fn within_bound(&self) -> bool {
        self.state.frame_len() <= VSH_BUF_SIZE
    }

    /// Where the receiver stands.
    pub closed spec fn spec_state(&self) -> ReceiveState {
        self.state
    }

    /// A receiver that waits for a header.
    pub fn new() -> (r: Receiver)
        ensures
            r.spec_state() == ReceiveState::AwaitHeader,
    {
        Receiver { state: ReceiveState::AwaitHeader }
    }

    /// Where the receiver stands. A frame in progress never has more than
    /// [`VSH_BUF_SIZE`] payload bytes.
    #[verifier::when_used_as_spec(spec_state)]
    pub fn state(&self) -> (state: ReceiveState)
        ensures
            state == self.spec_state(),
            state.frame_len() <= VSH_BUF_SIZE,
    {
        proof {
            use_type_invariant(self);
        }
        self.state
    }

    /// Takes the outcome of the last operation and answers with the next.
    pub fn step(&mut self, event: ReceiveEvent) -> (action: ReceiveAction)
        ensures
            (final(self).spec_state(), action@) == spec_receive_step(
                old(self).spec_state(),
                event@,
            ),
    {
        proof {
            use_type_invariant(&*self);
        }
        let state = self.state;
        match event {
            ReceiveEvent::Header(outcome) => {
                if let ReceiveState::AwaitHeader = state {
                    return match outcome {
                        Ok(header) => {
                            let len = decode_header(&header);
                            if len > VSH_BUF_SIZE as u32 {
                                ReceiveAction::Done(
                                    Err(VshWireError::InvalidFrameSize(len as usize)),
                                )
                            } else {
                                self.state = ReceiveState::AwaitPayload(len as usize);
                                ReceiveAction::ReadPayload(len as usize)
                            }
                        },
                        Err(e) => ReceiveAction::Done(Err(VshWireError::ReceiveMessage(e))),
                    };
                }
            },
            ReceiveEvent::Payload(outcome) => {
                if let ReceiveState::AwaitPayload(n) = state {
                    return match outcome {
                        Ok(()) => {
                            self.state = ReceiveState::AwaitParse(n);
                            ReceiveAction::Parse(n)
                        },
                        Err(e) => {
                            self.state = ReceiveState::AwaitHeader;
                            ReceiveAction::Done(Err(VshWireError::ReceiveMessage(e)))
                        },
                    };
                }
            },
            ReceiveEvent::Parsed(outcome) => {
                if let ReceiveState::AwaitParse(_) = state {
                    self.state = ReceiveState::AwaitHeader;
                    return match outcome {
                        Ok(()) => ReceiveAction::Done(Ok(())),
                        Err(m) => ReceiveAction::Done(Err(VshWireError::DeserializeProto(m))),
                    };
                }
            },
            ReceiveEvent::Begin => {},
        }
        match state {
            ReceiveState::AwaitHeader => ReceiveAction::ReadHeader,
            ReceiveState::AwaitPayload(n) => ReceiveAction::ReadPayload(n),
            ReceiveState::AwaitParse(n) => ReceiveAction::Parse(n),
        }
    }
}

/// The size bound is never exceeded: from a state within the bound, no
/// event leads to a state beyond it, and no read or parse is asked for more
/// than [`VSH_BUF_SIZE`] bytes, whatever a header announces.
pub proof fn lemma_receive_bounded(state: ReceiveState, event: ReceiveEventView)
    requires
        state.frame_len() <= VSH_BUF_SIZE,
    ensures
        spec_receive_step(state, event).0.frame_len() <= VSH_BUF_SIZE,
        spec_receive_step(state, event).1 matches ReceiveActionView::ReadPayload(n) ==> n
            <= VSH_BUF_SIZE,
        spec_receive_step(state, event).1 matches ReceiveActionView::Parse(n) ==> n
            <= VSH_BUF_SIZE,
{
}

/// Frames are received strictly one after the other. A header is asked for
/// only between frames. While a frame is in progress its length stays what
/// its header said, and what is asked for is that frame's payload, its
/// parse, or nothing more. A receive that ends, well or not, leaves the
/// receiver between frames.
pub proof fn lemma_receive_in_order(state: ReceiveState, event: ReceiveEventView)
    ensures
        spec_receive_step(state, event).1 is ReadHeader ==> state == ReceiveState::AwaitHeader
            && spec_receive_step(state, event).0 == ReceiveState::AwaitHeader,
        spec_receive_step(state, event).1 is Done <==> spec_receive_step(state, event).0
            == ReceiveState::AwaitHeader && !(spec_receive_step(state, event).1 is ReadHeader),
        state != ReceiveState::AwaitHeader ==> {
            let (next, action) = spec_receive_step(state, event);
            &&& next != ReceiveState::AwaitHeader ==> next.frame_len() == state.frame_len()
            &&& action matches ReceiveActionView::ReadPayload(n) ==> n == state.frame_len()
            &&& action matches ReceiveActionView::Parse(n) ==> n == state.frame_len()
        },
        spec_receive_step(state, event).1 is Parse ==> !(state == ReceiveState::AwaitHeader),
{
}

/// A receive fails in three ways, and they are never mistaken for one
/// another. It ends with a transport failure exactly when a read that was
/// outstanding failed, and then carries that failure. It ends with a
/// frame-size violation exactly when the header was read and announces more
/// than [`VSH_BUF_SIZE`] bytes, and then carries the length announced. It
/// ends with a schema failure exactly when the schema was asked and refused
/// the payload. It never ends with an error of the send side.
pub proof fn lemma_receive_failures_are_told_apart(
    state: ReceiveState,
    event: ReceiveEventView,
    failure: IoErrorView,
    len: nat,
    fault: Seq<char>,
)
    ensures
        ({
            let action = spec_receive_step(state, event).1;
            &&& action == ReceiveActionView::Done(Err(VshWireErrorView::ReceiveMessage(failure)))
                <==> ((state == ReceiveState::AwaitHeader && event == ReceiveEventView::Header(
                Err(failure),
            )) || (state is AwaitPayload && event == ReceiveEventView::Payload(Err(failure))))
            &&& action == ReceiveActionView::Done(Err(VshWireErrorView::InvalidFrameSize(len)))
                <==> (state == ReceiveState::AwaitHeader && len > VSH_BUF_SIZE && (
            event matches ReceiveEventView::Header(Ok(header)) && spec_frame_len(header) == len))
            &&& action == ReceiveActionView::Done(Err(VshWireErrorView::DeserializeProto(fault)))
                <==> (state is AwaitParse && event == ReceiveEventView::Parsed(Err(fault)))
            &&& (action matches ReceiveActionView::Done(Ok(_))) <==> (state is AwaitParse && (
            event matches ReceiveEventView::Parsed(Ok(_))))
            &&& action != ReceiveActionView::Done(Err(VshWireErrorView::MessageTooBig(len)))
            &&& action != ReceiveActionView::Done(Err(VshWireErrorView::SendMessage(failure)))
            &&& action != ReceiveActionView::Done(Err(VshWireErrorView::SerializeProto(fault)))
        }),
{
}

} // verus!
