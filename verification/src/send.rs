//! The send side of the protocol: serialize, header, payload.

use crate::frame::{encode_header, spec_header, VSH_BUF_SIZE};
use crate::io_error::{io_result_view, IoError, IoErrorView};
use crate::vsh_wire::{wire_result_view, VshWireError, VshWireErrorView};
use vstd::prelude::*;

verus! {

/// Where a sender stands within one message.
#[derive(Clone, Copy, Debug, PartialEq, Eq, Structural)]
pub enum SendState {
    /// No frame is in progress; the next thing to come is a serialized
    /// message.
    AwaitSerialize,
    /// The header of the message in the transmit buffer is being written.
    AwaitHeaderWrite,
    /// The header is out; the payload is being written.
    AwaitPayloadWrite,
}

/// How the operation that a sender asked for ended.
#[derive(Debug, PartialEq, Eq)]
pub enum SendEvent {
    /// Nothing happened yet; the caller asks what to do.
    Begin,
    /// The schema serialized the message into these bytes, or refused it.
    Serialized(Result<Vec<u8>, String>),
    /// All the bytes asked for were written, or the write failed.
    Written(Result<(), IoError>),
}

/// What a [`SendEvent`] is.
pub enum SendEventView {
    Begin,
    Serialized(Result<Seq<u8>, Seq<char>>),
    Written(Result<(), IoErrorView>),
}

impl View for SendEvent {
    type V = SendEventView;

    open spec fn view(&self) -> SendEventView {
        match self {
            SendEvent::Begin => SendEventView::Begin,
            SendEvent::Serialized(Ok(bytes)) => SendEventView::Serialized(Ok(bytes@)),
            SendEvent::Serialized(Err(m)) => SendEventView::Serialized(Err(m@)),
            SendEvent::Written(r) => SendEventView::Written(io_result_view(*r)),
        }
    }
}

/// What a sender asks its caller to do next.
#[derive(Debug, PartialEq, Eq)]
pub enum SendAction {
    /// Serialize the message and report with [`SendEvent::Serialized`].
    Serialize,
    /// Write these four bytes and report with [`SendEvent::Written`].
    WriteHeader([u8; 4]),
    /// Write the transmit buffer, which holds this many bytes, and report
    /// with [`SendEvent::Written`].
    WritePayload(usize),
    /// The send is over, with this outcome.
    Done(Result<(), VshWireError>),
}

/// What a [`SendAction`] is.
pub enum SendActionView {
    Serialize,
    WriteHeader(Seq<u8>),
    WritePayload(nat),
    Done(Result<(), VshWireErrorView>),
}

impl View for SendAction {
    type V = SendActionView;

    open spec fn view(&self) -> SendActionView {
        match self {
            SendAction::Serialize => SendActionView::Serialize,
            SendAction::WriteHeader(h) => SendActionView::WriteHeader(h@),
            SendAction::WritePayload(n) => SendActionView::WritePayload(*n as nat),
            SendAction::Done(r) => SendActionView::Done(wire_result_view(*r)),
        }
    }
}

/// The operation that is outstanding in a state, with `tx` in the transmit
/// buffer.
pub open spec fn spec_send_pending(state: SendState, tx: Seq<u8>) -> SendActionView {
    match state {
        SendState::AwaitSerialize => SendActionView::Serialize,
        SendState::AwaitHeaderWrite => SendActionView::WriteHeader(spec_header(tx.len() as u32)),
        SendState::AwaitPayloadWrite => SendActionView::WritePayload(tx.len()),
    }
}

/// The sender's answer to a message that was serialized into `bytes`: the
/// bytes go to the transmit buffer, and a header is asked for unless they
/// are too many.
pub open spec fn spec_send_serialized(bytes: Seq<u8>) -> (SendState, Seq<u8>, SendActionView) {
    if bytes.len() > VSH_BUF_SIZE {
        (
            SendState::AwaitSerialize,
            bytes,
            SendActionView::Done(Err(VshWireErrorView::MessageTooBig(bytes.len()))),
        )
    } else {
        (
            SendState::AwaitHeaderWrite,
            bytes,
            SendActionView::WriteHeader(spec_header(bytes.len() as u32)),
        )
    }
}

/// One step of a sender with `tx` in its transmit buffer: the state it moves
/// to, what the buffer then holds, and what it asks for.
pub open spec fn spec_send_step(state: SendState, tx: Seq<u8>, event: SendEventView) -> (
    SendState,
    Seq<u8>,
    SendActionView,
) {
    match (state, event) {
        (SendState::AwaitSerialize, SendEventView::Serialized(Ok(bytes))) => spec_send_serialized(
            bytes,
        ),
        (SendState::AwaitSerialize, SendEventView::Serialized(Err(m))) => (
            SendState::AwaitSerialize,
            tx,
            SendActionView::Done(Err(VshWireErrorView::SerializeProto(m))),
        ),
        (SendState::AwaitHeaderWrite, SendEventView::Written(Ok(()))) => (
            SendState::AwaitPayloadWrite,
            tx,
            SendActionView::WritePayload(tx.len()),
        ),
        (SendState::AwaitPayloadWrite, SendEventView::Written(Ok(()))) => (
            SendState::AwaitSerialize,
            tx,
            SendActionView::Done(Ok(())),
        ),
        (SendState::AwaitHeaderWrite, SendEventView::Written(Err(e))) => (
            SendState::AwaitSerialize,
            tx,
            SendActionView::Done(Err(VshWireErrorView::SendMessage(e))),
        ),
        (SendState::AwaitPayloadWrite, SendEventView::Written(Err(e))) => (
            SendState::AwaitSerialize,
            tx,
            SendActionView::Done(Err(VshWireErrorView::SendMessage(e))),
        ),
        _ => (state, tx, spec_send_pending(state, tx)),
    }
}

/// The send side of a framer, with its transmit buffer.
pub struct Sender {
    tx_buf: Vec<u8>,
    state: SendState,
}

impl Sender {
    #[verifier::type_invariant]
    spec fn within_bound(&self) -> bool {
        self.state != SendState::AwaitSerialize ==> self.tx_buf@.len() <= VSH_BUF_SIZE
    }

    /// Where the sender stands.
    pub closed spec fn spec_state(&self) -> SendState {
        self.state
    }

    /// What the transmit buffer holds.
    pub closed spec fn tx(&self) -> Seq<u8> {
        self.tx_buf@
    }

    /// A sender with no frame in progress and `buf` as its transmit buffer.
    pub fn new(buf: Vec<u8>) -> (s: Sender)
        ensures
            s.spec_state() == SendState::AwaitSerialize,
            s.tx() == buf@,
    {
        Sender { tx_buf: buf, state: SendState::AwaitSerialize }
    }

    /// Where the sender stands. While a frame is in progress the transmit
    /// buffer holds no more than [`VSH_BUF_SIZE`] bytes.
    #[verifier::when_used_as_spec(spec_state)]
    pub fn state(&self) -> (state: SendState)
        ensures
            state == self.spec_state(),
            state != SendState::AwaitSerialize ==> self.tx().len() <= VSH_BUF_SIZE,
    {
        proof {
            use_type_invariant(self);
        }
        self.state
    }

    /// Gives up any frame in progress and hands out the transmit buffer,
    /// emptied, for the next message to be serialized into.
    pub fn take_buffer(&mut self) -> (buf: Vec<u8>)
        ensures
            buf@ == Seq::<u8>::empty(),
            final(self).spec_state() == SendState::AwaitSerialize,
            final(self).tx() == Seq::<u8>::empty(),
    {
        self.state = SendState::AwaitSerialize;
        let mut buf: Vec<u8> = Vec::new();
        core::mem::swap(&mut self.tx_buf, &mut buf);
        buf.truncate(0);
        buf
    }

    /// The bytes in the transmit buffer.
    pub fn frame(&self) -> (bytes: &[u8])
        ensures
            bytes@ == self.tx(),
    {
        self.tx_buf.as_slice()
    }

    /// Takes the outcome of the last operation and answers with the next.
    pub fn step(&mut self, event: SendEvent) -> (action: SendAction)
        ensures
            (final(self).spec_state(), final(self).tx(), action@) == spec_send_step(
                old(self).spec_state(),
                old(self).tx(),
                event@,
            ),
    {
        proof {
            use_type_invariant(&*self);
        }
        let state = self.state;
        match event {
            SendEvent::Serialized(outcome) => {
                if let SendState::AwaitSerialize = state {
                    return match outcome {
                        Ok(bytes) => {
                            let len = bytes.len();
                            self.tx_buf = bytes;
                            if len > VSH_BUF_SIZE {
                                SendAction::Done(Err(VshWireError::MessageTooBig(len)))
                            } else {
                                self.state = SendState::AwaitHeaderWrite;
                                SendAction::WriteHeader(encode_header(len as u32))
                            }
                        },
                        Err(m) => SendAction::Done(Err(VshWireError::SerializeProto(m))),
                    };
                }
            },
            SendEvent::Written(outcome) => {
                match state {
                    SendState::AwaitSerialize => {},
                    SendState::AwaitHeaderWrite => {
                        return match outcome {
                            Ok(()) => {
                                self.state = SendState::AwaitPayloadWrite;
                                SendAction::WritePayload(self.tx_buf.len())
                            },
                            Err(e) => {
                                self.state = SendState::AwaitSerialize;
                                SendAction::Done(Err(VshWireError::SendMessage(e)))
                            },
                        };
                    },
                    SendState::AwaitPayloadWrite => {
                        self.state = SendState::AwaitSerialize;
                        return match outcome {
                            Ok(()) => SendAction::Done(Ok(())),
                            Err(e) => SendAction::Done(Err(VshWireError::SendMessage(e))),
                        };
                    },
                }
            },
            SendEvent::Begin => {},
        }
        match state {
            SendState::AwaitSerialize => SendAction::Serialize,
            SendState::AwaitHeaderWrite => SendAction::WriteHeader(
                encode_header(self.tx_buf.len() as u32),
            ),
            SendState::AwaitPayloadWrite => SendAction::WritePayload(self.tx_buf.len()),
        }
    }
}

/// The size bound is never exceeded: while a frame is in progress the
/// transmit buffer holds no more than [`VSH_BUF_SIZE`] bytes, so no payload
/// write is asked for more than that, and every header announces exactly
/// what the buffer holds.
pub proof fn lemma_send_bounded(state: SendState, tx: Seq<u8>, event: SendEventView)
    requires
        state != SendState::AwaitSerialize ==> tx.len() <= VSH_BUF_SIZE,
    ensures
        ({
            let (next, next_tx, action) = spec_send_step(state, tx, event);
            &&& next != SendState::AwaitSerialize ==> next_tx.len() <= VSH_BUF_SIZE
            &&& action matches SendActionView::WritePayload(n) ==> n == next_tx.len() && n
                <= VSH_BUF_SIZE
            &&& action matches SendActionView::WriteHeader(header) ==> header == spec_header(
                next_tx.len() as u32,
            ) && next_tx.len() <= VSH_BUF_SIZE
        }),
{
}

/// Frames are sent strictly one after the other. While a frame is in
/// progress the transmit buffer is not touched and no new message is asked
/// for; a payload is written only after its header; and a send that ends,
/// well or not, leaves the sender ready for the next message. Nothing is
/// asked to be written unless a message within the bound was serialized.
pub proof fn lemma_send_in_order(state: SendState, tx: Seq<u8>, event: SendEventView)
    ensures
        ({
            let (next, next_tx, action) = spec_send_step(state, tx, event);
            &&& state != SendState::AwaitSerialize ==> next_tx == tx && !(action is Serialize)
            &&& action is Done ==> next == SendState::AwaitSerialize
            &&& action is Serialize ==> state == SendState::AwaitSerialize && next
                == SendState::AwaitSerialize
            &&& action is WritePayload ==> state != SendState::AwaitSerialize && next
                == SendState::AwaitPayloadWrite
            &&& action is WriteHeader ==> next == SendState::AwaitHeaderWrite
            &&& state == SendState::AwaitSerialize && (action is WriteHeader) ==> (
            event matches SendEventView::Serialized(Ok(bytes)) && bytes.len() <= VSH_BUF_SIZE)
        }),
{
}

/// A send fails in three ways, and they are never mistaken for one another.
/// It ends with a schema failure exactly when the schema refused the
/// message; with a size error exactly when the serialized message has more
/// than [`VSH_BUF_SIZE`] bytes, and then carries their number; with a
/// transport failure exactly when a write that was outstanding failed, and
/// then carries that failure. It never ends with an error of the receive
/// side.
pub proof fn lemma_send_failures_are_told_apart(
    state: SendState,
    tx: Seq<u8>,
    event: SendEventView,
    failure: IoErrorView,
    len: nat,
    fault: Seq<char>,
)
    ensures
        ({
            let action = spec_send_step(state, tx, event).2;
            &&& action == SendActionView::Done(Err(VshWireErrorView::SerializeProto(fault)))
                <==> (state == SendState::AwaitSerialize && event == SendEventView::Serialized(
                Err(fault),
            ))
            &&& action == SendActionView::Done(Err(VshWireErrorView::MessageTooBig(len))) <==> (
            state == SendState::AwaitSerialize && len > VSH_BUF_SIZE && (
            event matches SendEventView::Serialized(Ok(bytes)) && bytes.len() == len))
            &&& action == SendActionView::Done(Err(VshWireErrorView::SendMessage(failure))) <==> (
            state != SendState::AwaitSerialize && event == SendEventView::Written(Err(failure)))
            &&& (action matches SendActionView::Done(Ok(_))) <==> (state
                == SendState::AwaitPayloadWrite && (event matches SendEventView::Written(Ok(_))))
            &&& action != SendActionView::Done(Err(VshWireErrorView::ReceiveMessage(failure)))
            &&& action != SendActionView::Done(Err(VshWireErrorView::InvalidFrameSize(len)))
            &&& action != SendActionView::Done(Err(VshWireErrorView::DeserializeProto(fault)))
        }),
{
}

} // verus!
