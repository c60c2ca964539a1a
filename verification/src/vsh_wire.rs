//! The vsh wire protocol as two state machines, one per direction.
//!
//! A framer never touches the transport. It is told how the last operation
//! ended and answers with the next one to carry out: read a header, read a
//! payload, hand the payload to the message schema, write a header, write a
//! payload. Whoever owns the socket performs the operation and reports back.
//! An event that does not answer the operation that is outstanding changes
//! nothing, and the framer asks for that operation again.

use crate::decimal::{decimal, spec_decimal};
use crate::frame::VSH_BUF_SIZE;
use crate::io_error::{IoError, IoErrorView};
use crate::receive::{spec_receive_step, ReceiveAction, ReceiveEvent, ReceiveState, Receiver};
use crate::send::{spec_send_step, SendAction, SendEvent, SendState, Sender};
use vstd::prelude::*;
use vstd::slice::slice_subrange;
use vstd::string::StringExecFns;

verus! {

/// Why a message could not be sent or received.
#[derive(Debug, PartialEq, Eq)]
pub enum VshWireError {
    /// The payload of a received frame is not a message of the schema; the
    /// text is the schema's description of the fault.
    DeserializeProto(String),
    /// The header of a received frame announced this many payload bytes,
    /// more than a frame carries. The peer broke the protocol; the transport
    /// did not fail.
    InvalidFrameSize(usize),
    /// The serialized message has this many bytes, more than a frame carries.
    MessageTooBig(usize),
    /// The transport failed while a frame was read.
    ReceiveMessage(IoError),
    /// The transport failed while a frame was written.
    SendMessage(IoError),
    /// The schema could not serialize the message; the text is its
    /// description of the fault.
    SerializeProto(String),
}

/// What a [`VshWireError`] is.
pub enum VshWireErrorView {
    DeserializeProto(Seq<char>),
    InvalidFrameSize(nat),
    MessageTooBig(nat),
    ReceiveMessage(IoErrorView),
    SendMessage(IoErrorView),
    SerializeProto(Seq<char>),
}

impl View for VshWireError {
    type V = VshWireErrorView;

    open spec fn view(&self) -> VshWireErrorView {
        match self {
            VshWireError::DeserializeProto(m) => VshWireErrorView::DeserializeProto(m@),
            VshWireError::InvalidFrameSize(n) => VshWireErrorView::InvalidFrameSize(*n as nat),
            VshWireError::MessageTooBig(n) => VshWireErrorView::MessageTooBig(*n as nat),
            VshWireError::ReceiveMessage(e) => VshWireErrorView::ReceiveMessage(e@),
            VshWireError::SendMessage(e) => VshWireErrorView::SendMessage(e@),
            VshWireError::SerializeProto(m) => VshWireErrorView::SerializeProto(m@),
        }
    }
}

impl Clone for VshWireError {
    fn clone(&self) -> (e: VshWireError)
        ensures
            e@ == self@,
    {
        match self {
            VshWireError::ReceiveMessage(x) => VshWireError::ReceiveMessage(x.clone()),
            VshWireError::SendMessage(x) => VshWireError::SendMessage(x.clone()),
            VshWireError::DeserializeProto(x) => VshWireError::DeserializeProto(x.clone()),
            VshWireError::SerializeProto(x) => VshWireError::SerializeProto(x.clone()),
            VshWireError::InvalidFrameSize(x) => VshWireError::InvalidFrameSize(*x),
            VshWireError::MessageTooBig(x) => VshWireError::MessageTooBig(*x),
        }
    }
}

/// The text that describes an error.
pub open spec fn spec_error_text(e: VshWireErrorView) -> Seq<char> {
    match e {
        VshWireErrorView::DeserializeProto(m) => "failed to deserialize protobuf: "@ + m,
        VshWireErrorView::InvalidFrameSize(n) => "invalid vsh frame size: "@ + spec_decimal(n),
        VshWireErrorView::MessageTooBig(n) => "protobuf is too big to send: "@ + spec_decimal(n),
        VshWireErrorView::ReceiveMessage(e) => "failed to receive message: "@ + e.message,
        VshWireErrorView::SendMessage(e) => "failed to send message: "@ + e.message,
        VshWireErrorView::SerializeProto(m) => "failed to serialize protobuf: "@ + m,
    }
}

impl VshWireError {
    /// Describes the error in words.
    pub fn to_string(&self) -> (text: String)
        ensures
            text@ == spec_error_text(self@),
    {
        match self {
            VshWireError::DeserializeProto(m) => String::from_str(
                "failed to deserialize protobuf: ",
            ).concat(m.as_str()),
            VshWireError::InvalidFrameSize(n) => String::from_str(
                "invalid vsh frame size: ",
            ).concat(decimal(*n).as_str()),
            VshWireError::MessageTooBig(n) => String::from_str(
                "protobuf is too big to send: ",
            ).concat(decimal(*n).as_str()),
            VshWireError::ReceiveMessage(e) => String::from_str(
                "failed to receive message: ",
            ).concat(e.message.as_str()),
            VshWireError::SendMessage(e) => String::from_str("failed to send message: ").concat(
                e.message.as_str(),
            ),
            VshWireError::SerializeProto(m) => String::from_str(
                "failed to serialize protobuf: ",
            ).concat(m.as_str()),
        }
    }
}

/// The view of what a send or a receive ended with.
pub open spec fn wire_result_view(r: Result<(), VshWireError>) -> Result<(), VshWireErrorView> {
    match r {
        Ok(()) => Ok(()),
        Err(e) => Err(e@),
    }
}

/// The view of what the message schema reported.
pub open spec fn schema_result_view<T>(r: Result<T, String>) -> Result<T, Seq<char>> {
    match r {
        Ok(t) => Ok(t),
        Err(m) => Err(m@),
    }
}

/// A receive buffer as a framer starts with: [`VSH_BUF_SIZE`] zero bytes.
pub open spec fn spec_zeroed() -> Seq<u8> {
    Seq::new(VSH_BUF_SIZE as nat, |i: int| 0u8)
}

/// A framer for both directions of one connection, for a caller that blocks
/// on each transport operation.
pub struct VshWire {
    rx_buf: [u8; VSH_BUF_SIZE],
    receiver: Receiver,
    sender: Sender,
}

impl VshWire {
    /// Where the receive side stands.
    pub closed spec fn spec_receive_state(&self) -> ReceiveState {
        self.receiver.spec_state()
    }

    /// Where the send side stands.
    pub closed spec fn spec_send_state(&self) -> SendState {
        self.sender.spec_state()
    }

    /// What the receive buffer holds.
    pub closed spec fn rx(&self) -> Seq<u8> {
        self.rx_buf@
    }

    /// What the transmit buffer holds.
    pub closed spec fn tx(&self) -> Seq<u8> {
        self.sender.tx()
    }

    /// The payload of the frame being received: the front of the receive
    /// buffer, as long as the frame's header said.
    pub open spec fn spec_payload(&self) -> Seq<u8> {
        self.rx().subrange(0, self.spec_receive_state().frame_len() as int)
    }

    /// A framer with no frame in progress in either direction, a zeroed
    /// receive buffer and an empty transmit buffer.
    pub fn new() -> (wire: VshWire)
        ensures
            wire.spec_receive_state() == ReceiveState::AwaitHeader,
            wire.spec_send_state() == SendState::AwaitSerialize,
            wire.rx() == spec_zeroed(),
            wire.tx() == Seq::<u8>::empty(),
    {
        let wire = VshWire {
            rx_buf: [0u8; VSH_BUF_SIZE],
            receiver: Receiver::new(),
            sender: Sender::new(Vec::with_capacity(VSH_BUF_SIZE)),
        };
        assert(wire.rx_buf@ =~= spec_zeroed());
        wire
    }

    /// Where the receive side stands. A frame in progress never has more
    /// than [`VSH_BUF_SIZE`] payload bytes.
    #[verifier::when_used_as_spec(spec_receive_state)]
    pub fn receive_state(&self) -> (state: ReceiveState)
        ensures
            state == self.spec_receive_state(),
            state.frame_len() <= VSH_BUF_SIZE,
    {
        self.receiver.state()
    }

    /// Where the send side stands. While a frame is in progress the transmit
    /// buffer holds no more than [`VSH_BUF_SIZE`] bytes.
    #[verifier::when_used_as_spec(spec_send_state)]
    pub fn send_state(&self) -> (state: SendState)
        ensures
            state == self.spec_send_state(),
            state != SendState::AwaitSerialize ==> self.tx().len() <= VSH_BUF_SIZE,
    {
        self.sender.state()
    }

    /// Advances the receive of one message: takes the outcome of the last
    /// operation and answers with the next. The send side and both buffers
    /// stay as they are.
    pub fn receive_message(&mut self, event: ReceiveEvent) -> (action: ReceiveAction)
        ensures
            (final(self).spec_receive_state(), action@) == spec_receive_step(
                old(self).spec_receive_state(),
                event@,
            ),
            final(self).rx() == old(self).rx(),
            final(self).spec_send_state() == old(self).spec_send_state(),
            final(self).tx() == old(self).tx(),
    {
        self.receiver.step(event)
    }

    /// Lends the receive buffer, for a payload to be read into its front.
    pub fn receive_buffer(&mut self) -> (buf: &mut [u8; VSH_BUF_SIZE])
        ensures
            buf@ == old(self).rx(),
            final(self).rx() == final(buf)@,
            final(self).spec_receive_state() == old(self).spec_receive_state(),
            final(self).spec_send_state() == old(self).spec_send_state(),
            final(self).tx() == old(self).tx(),
    {
        &mut self.rx_buf
    }

    /// The payload of the frame being received.
    pub fn payload(&self) -> (bytes: &[u8])
        ensures
            bytes@ == self.spec_payload(),
    {
        let len = match self.receiver.state() {
            ReceiveState::AwaitHeader => 0,
            ReceiveState::AwaitPayload(n) => n,
            ReceiveState::AwaitParse(n) => n,
        };
        slice_subrange(self.rx_buf.as_slice(), 0, len)
    }

    /// Advances the send of one message: takes the outcome of the last
    /// operation and answers with the next. A serialized message moves into
    /// the transmit buffer; the receive side stays as it is.
    pub fn send_message(&mut self, event: SendEvent) -> (action: SendAction)
        ensures
            (final(self).spec_send_state(), final(self).tx(), action@) == spec_send_step(
                old(self).spec_send_state(),
                old(self).tx(),
                event@,
            ),
            final(self).spec_receive_state() == old(self).spec_receive_state(),
            final(self).rx() == old(self).rx(),
    {
        self.sender.step(event)
    }

    /// Gives up any frame being sent and hands out the transmit buffer,
    /// emptied, for the next message to be serialized into.
    pub fn take_transmit_buffer(&mut self) -> (buf: Vec<u8>)
        ensures
            buf@ == Seq::<u8>::empty(),
            final(self).spec_send_state() == SendState::AwaitSerialize,
            final(self).tx() == Seq::<u8>::empty(),
            final(self).spec_receive_state() == old(self).spec_receive_state(),
            final(self).rx() == old(self).rx(),
    {
        self.sender.take_buffer()
    }

    /// The bytes in the transmit buffer: the payload of the frame being sent.
    pub fn transmit_buffer(&self) -> (bytes: &[u8])
        ensures
            bytes@ == self.tx(),
    {
        self.sender.frame()
    }
}

/// The receiving half of a framer, for a connection whose two directions
/// are driven by separate tasks.
pub struct VshAsyncRead {
    rx_buf: [u8; VSH_BUF_SIZE],
    receiver: Receiver,
}

impl VshAsyncRead {
    /// Where the half stands.
    pub closed spec fn spec_state(&self) -> ReceiveState {
        self.receiver.spec_state()
    }

    /// What the receive buffer holds.
    pub closed spec fn rx(&self) -> Seq<u8> {
        self.rx_buf@
    }

    /// The payload of the frame being received: the front of the receive
    /// buffer, as long as the frame's header said.
    pub open spec fn spec_payload(&self) -> Seq<u8> {
        self.rx().subrange(0, self.spec_state().frame_len() as int)
    }

    /// A half with no frame in progress and a zeroed receive buffer.
    pub fn new() -> (half: VshAsyncRead)
        ensures
            half.spec_state() == ReceiveState::AwaitHeader,
            half.rx() == spec_zeroed(),
    {
        let half = VshAsyncRead { rx_buf: [0u8; VSH_BUF_SIZE], receiver: Receiver::new() };
        assert(half.rx_buf@ =~= spec_zeroed());
        half
    }

    /// Where the half stands. A frame in progress never has more than
    /// [`VSH_BUF_SIZE`] payload bytes.
    #[verifier::when_used_as_spec(spec_state)]
    pub fn state(&self) -> (state: ReceiveState)
        ensures
            state == self.spec_state(),
            state.frame_len() <= VSH_BUF_SIZE,
    {
        self.receiver.state()
    }

    /// Advances the receive of one message: takes the outcome of the last
    /// operation and answers with the next. The buffer stays as it is.
    pub fn receive_message(&mut self, event: ReceiveEvent) -> (action: ReceiveAction)
        ensures
            (final(self).spec_state(), action@) == spec_receive_step(
                old(self).spec_state(),
                event@,
            ),
            final(self).rx() == old(self).rx(),
    {
        self.receiver.step(event)
    }

    /// Lends the receive buffer, for a payload to be read into its front.
    pub fn receive_buffer(&mut self) -> (buf: &mut [u8; VSH_BUF_SIZE])
        ensures
            buf@ == old(self).rx(),
            final(self).rx() == final(buf)@,
            final(self).spec_state() == old(self).spec_state(),
    {
        &mut self.rx_buf
    }

    /// The payload of the frame being received.
    pub fn payload(&self) -> (bytes: &[u8])
        ensures
            bytes@ == self.spec_payload(),
    {
        let len = match self.receiver.state() {
            ReceiveState::AwaitHeader => 0,
            ReceiveState::AwaitPayload(n) => n,
            ReceiveState::AwaitParse(n) => n,
        };
        slice_subrange(self.rx_buf.as_slice(), 0, len)
    }
}

/// The sending half of a framer, for a connection whose two directions are
/// driven by separate tasks.
pub struct VshAsyncWrite {
    sender: Sender,
}

impl VshAsyncWrite {
    /// Where the half stands.
    pub closed spec fn spec_state(&self) -> SendState {
        self.sender.spec_state()
    }

    /// What the transmit buffer holds.
    pub closed spec fn tx(&self) -> Seq<u8> {
        self.sender.tx()
    }

    /// A half with no frame in progress. Its transmit buffer starts as
    /// [`VSH_BUF_SIZE`] zero bytes, which the first message replaces.
    pub fn new() -> (half: VshAsyncWrite)
        ensures
            half.spec_state() == SendState::AwaitSerialize,
            half.tx() == spec_zeroed(),
    {
        let buf = vec![0u8; VSH_BUF_SIZE];
        assert(buf@ =~= spec_zeroed());
        VshAsyncWrite { sender: Sender::new(buf) }
    }

    /// Where the half stands. While a frame is in progress the transmit
    /// buffer holds no more than [`VSH_BUF_SIZE`] bytes.
    #[verifier::when_used_as_spec(spec_state)]
    pub fn state(&self) -> (state: SendState)
        ensures
            state == self.spec_state(),
            state != SendState::AwaitSerialize ==> self.tx().len() <= VSH_BUF_SIZE,
    {
        self.sender.state()
    }

    /// Advances the send of one message: takes the outcome of the last
    /// operation and answers with the next. A serialized message moves into
    /// the transmit buffer.
    pub fn send_message(&mut self, event: SendEvent) -> (action: SendAction)
        ensures
            (final(self).spec_state(), final(self).tx(), action@) == spec_send_step(
                old(self).spec_state(),
                old(self).tx(),
                event@,
            ),
    {
        self.sender.step(event)
    }

    /// Gives up any frame being sent and hands out the transmit buffer,
    /// emptied, for the next message to be serialized into.
    pub fn take_transmit_buffer(&mut self) -> (buf: Vec<u8>)
        ensures
            buf@ == Seq::<u8>::empty(),
            final(self).spec_state() == SendState::AwaitSerialize,
            final(self).tx() == Seq::<u8>::empty(),
    {
        self.sender.take_buffer()
    }

    /// The bytes in the transmit buffer: the payload of the frame being sent.
    pub fn transmit_buffer(&self) -> (bytes: &[u8])
        ensures
            bytes@ == self.tx(),
    {
        self.sender.frame()
    }
}

} // verus!
