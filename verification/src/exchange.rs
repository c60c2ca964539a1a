//! Whole messages. A framer is driven one operation at a time; this module
//! says what comes of driving it from the first event of a message to the
//! last over a transport that never fails, and proves what the protocol
//! promises of that: what is sent is a frame, a frame is received as it was
//! sent, and nothing beyond the size bound is ever written or read.

use crate::frame::{
    lemma_frame_round_trip, spec_frame, spec_frame_len, spec_read_frame, FrameRead,
    FRAME_HEADER_SIZE, VSH_BUF_SIZE,
};
use crate::receive::{spec_receive_step, ReceiveActionView, ReceiveEventView, ReceiveState};
use crate::send::{spec_send_step, SendActionView, SendEventView, SendState};
use crate::vsh_wire::VshWireErrorView;
use vstd::prelude::*;

verus! {

/// What sending one message came to.
pub struct SendRun {
    /// The bytes written to the transport, in order.
    pub written: Seq<u8>,
    /// How the send ended.
    pub result: Result<(), VshWireErrorView>,
}

/// Drives a sender that has no frame in progress through one message: the
/// schema reports `serialized`, and every write the sender asks for
/// succeeds. `None` if the sender asks for anything else than a header, then
/// a payload, then nothing.
pub open spec fn spec_send_run(serialized: Result<Seq<u8>, Seq<char>>) -> Option<SendRun> {
    let (s1, tx1, a1) = spec_send_step(
        SendState::AwaitSerialize,
        Seq::<u8>::empty(),
        SendEventView::Serialized(serialized),
    );
    match a1 {
        SendActionView::Done(result) => Some(SendRun { written: Seq::<u8>::empty(), result }),
        SendActionView::WriteHeader(header) => {
            let (s2, tx2, a2) = spec_send_step(s1, tx1, SendEventView::Written(Ok(())));
            match a2 {
                SendActionView::WritePayload(n) => {
                    let (s3, tx3, a3) = spec_send_step(s2, tx2, SendEventView::Written(Ok(())));
                    match a3 {
                        SendActionView::Done(result) => Some(
                            SendRun { written: header + tx2.subrange(0, n as int), result },
                        ),
                        _ => None,
                    }
                },
                _ => None,
            }
        },
        _ => None,
    }
}

/// What receiving one message came to.
pub struct ReceiveRun {
    /// How many bytes were read from the transport.
    pub consumed: nat,
    /// The bytes handed to the schema; empty if it was never asked.
    pub payload: Seq<u8>,
    /// How the receive ended.
    pub result: Result<(), VshWireErrorView>,
}

/// Drives a receiver that has no frame in progress through one message: the
/// transport holds `stream`, every read the receiver asks for is served from
/// its front, and the schema reports `parsed` if asked. `None` if the stream
/// ends before a read can be served.
pub open spec fn spec_receive_run(stream: Seq<u8>, parsed: Result<(), Seq<char>>) -> Option<
    ReceiveRun,
> {
    if stream.len() < FRAME_HEADER_SIZE {
        None
    } else {
        let (s1, a1) = spec_receive_step(
            ReceiveState::AwaitHeader,
            ReceiveEventView::Header(Ok(stream.subrange(0, 4))),
        );
        match a1 {
            ReceiveActionView::Done(result) => Some(
                ReceiveRun { consumed: 4, payload: Seq::<u8>::empty(), result },
            ),
            ReceiveActionView::ReadPayload(n) => {
                if stream.len() < 4 + n {
                    None
                } else {
                    let (s2, a2) = spec_receive_step(s1, ReceiveEventView::Payload(Ok(())));
                    match a2 {
                        ReceiveActionView::Parse(m) => {
                            let (s3, a3) = spec_receive_step(s2, ReceiveEventView::Parsed(parsed));
                            match a3 {
                                ReceiveActionView::Done(result) => Some(
                                    ReceiveRun {
                                        consumed: 4 + n,
                                        payload: stream.subrange(4, 4 + m as int),
                                        result,
                                    },
                                ),
                                _ => None,
                            }
                        },
                        _ => None,
                    }
                }
            },
            _ => None,
        }
    }
}

/// The outcome of a receive whose payload reached the schema.
pub open spec fn spec_parsed_result(parsed: Result<(), Seq<char>>) -> Result<
    (),
    VshWireErrorView,
> {
    match parsed {
        Ok(()) => Ok(()),
        Err(m) => Err(VshWireErrorView::DeserializeProto(m)),
    }
}

/// A send always runs to its end, and there are three ways it can go. If the
/// schema fails, nothing is written. If the serialized message exceeds the
/// size bound, nothing is written and the error tells its size. Otherwise
/// exactly one frame is written, with the serialized message as payload.
pub proof fn lemma_send_run(serialized: Result<Seq<u8>, Seq<char>>)
    ensures
        serialized matches Err(m) ==> spec_send_run(serialized) == Some(
            SendRun {
                written: Seq::<u8>::empty(),
                result: Err(VshWireErrorView::SerializeProto(m)),
            },
        ),
        serialized matches Ok(bytes) ==> bytes.len() > VSH_BUF_SIZE ==> spec_send_run(serialized)
            == Some(
            SendRun {
                written: Seq::<u8>::empty(),
                result: Err(VshWireErrorView::MessageTooBig(bytes.len())),
            },
        ),
        serialized matches Ok(bytes) ==> bytes.len() <= VSH_BUF_SIZE ==> spec_send_run(serialized)
            == Some(SendRun { written: spec_frame(bytes), result: Ok(()) }),
{
    if let Ok(bytes) = serialized {
        if bytes.len() <= VSH_BUF_SIZE {
            assert(bytes.subrange(0, bytes.len() as int) =~= bytes);
        }
    }
}

/// A receive follows the wire format. Where the stream starts with a whole
/// frame, the frame's bytes are read and no others, its payload goes to the
/// schema, and the outcome is the schema's. Where the header announces more
/// than the size bound, the four header bytes are all that is read and the
/// receive fails with a frame-size violation that tells the length
/// announced. Where the stream ends early, a read cannot be served.
pub proof fn lemma_receive_run(stream: Seq<u8>, parsed: Result<(), Seq<char>>)
    ensures
        match spec_read_frame(stream) {
            FrameRead::Frame { payload, consumed } => spec_receive_run(stream, parsed) == Some(
                ReceiveRun { consumed, payload, result: spec_parsed_result(parsed) },
            ),
            FrameRead::Oversize { len } => spec_receive_run(stream, parsed) == Some(
                ReceiveRun {
                    consumed: FRAME_HEADER_SIZE as nat,
                    payload: Seq::<u8>::empty(),
                    result: Err(VshWireErrorView::InvalidFrameSize(len)),
                },
            ),
            FrameRead::Truncated => spec_receive_run(stream, parsed).is_none(),
        },
{
}

/// A message within the size bound that one side sends is the message the
/// other side receives: the receiver reads exactly the bytes that were
/// written, hands the schema exactly the bytes the schema produced, and
/// leaves whatever follows in the stream untouched.
pub proof fn lemma_round_trip(message: Seq<u8>, rest: Seq<u8>, parsed: Result<(), Seq<char>>)
    requires
        message.len() <= VSH_BUF_SIZE,
    ensures
        spec_send_run(Ok(message)) matches Some(sent) && sent.result.is_ok() && sent.written
            == spec_frame(message) && spec_receive_run(sent.written + rest, parsed) == Some(
            ReceiveRun {
                consumed: sent.written.len(),
                payload: message,
                result: spec_parsed_result(parsed),
            },
        ),
{
    lemma_send_run(Ok(message));
    lemma_frame_round_trip(message, rest);
    lemma_receive_run(spec_frame(message) + rest, parsed);
}

/// A header that announces more than the size bound makes the receive fail
/// after the header alone, with a frame-size violation and not a transport
/// failure: no payload read is asked for, whatever the length announced and
/// whatever follows in the stream.
pub proof fn lemma_oversize_header_reads_nothing(
    header: Seq<u8>,
    rest: Seq<u8>,
    parsed: Result<(), Seq<char>>,
)
    requires
        header.len() == FRAME_HEADER_SIZE,
        spec_frame_len(header) > VSH_BUF_SIZE,
    ensures
        spec_receive_step(ReceiveState::AwaitHeader, ReceiveEventView::Header(Ok(header))) == (
            ReceiveState::AwaitHeader,
            ReceiveActionView::Done(Err(VshWireErrorView::InvalidFrameSize(spec_frame_len(header)))),
        ),
        spec_receive_run(header + rest, parsed) == Some(
            ReceiveRun {
                consumed: FRAME_HEADER_SIZE as nat,
                payload: Seq::<u8>::empty(),
                result: Err(VshWireErrorView::InvalidFrameSize(spec_frame_len(header))),
            },
        ),
{
    assert((header + rest).subrange(0, 4) =~= header);
}

/// A serialized message beyond the size bound is refused before anything is
/// written: the sender's only answer is the error, it asks for no write, and
/// it is ready for the next message.
pub proof fn lemma_oversize_send_writes_nothing(message: Seq<u8>, tx: Seq<u8>)
    requires
        message.len() > VSH_BUF_SIZE,
    ensures
        spec_send_step(SendState::AwaitSerialize, tx, SendEventView::Serialized(Ok(message))) == (
            SendState::AwaitSerialize,
            message,
            SendActionView::Done(Err(VshWireErrorView::MessageTooBig(message.len()))),
        ),
        spec_send_run(Ok(message)) == Some(
            SendRun {
                written: Seq::<u8>::empty(),
                result: Err(VshWireErrorView::MessageTooBig(message.len())),
            },
        ),
{
}

/// Messages sent one after the other are received one after the other:
/// the first receive takes exactly the first frame from the stream and
/// hands over the first message, and the second receive, on what is left,
/// takes exactly the second.
pub proof fn lemma_messages_in_order(
    first: Seq<u8>,
    second: Seq<u8>,
    rest: Seq<u8>,
    parsed: Result<(), Seq<char>>,
)
    requires
        first.len() <= VSH_BUF_SIZE,
        second.len() <= VSH_BUF_SIZE,
    ensures
        spec_send_run(Ok(first)) matches Some(one) && spec_send_run(Ok(second)) matches Some(two)
            && {
            let stream = one.written + two.written + rest;
            &&& spec_receive_run(stream, parsed) == Some(
                ReceiveRun {
                    consumed: one.written.len(),
                    payload: first,
                    result: spec_parsed_result(parsed),
                },
            )
            &&& spec_receive_run(stream.skip(one.written.len() as int), parsed) == Some(
                ReceiveRun {
                    consumed: two.written.len(),
                    payload: second,
                    result: spec_parsed_result(parsed),
                },
            )
        },
{
    lemma_send_run(Ok(first));
    lemma_send_run(Ok(second));
    lemma_round_trip(first, spec_frame(second) + rest, parsed);
    lemma_round_trip(second, rest, parsed);
    let stream = spec_frame(first) + spec_frame(second) + rest;
    assert(stream =~= spec_frame(first) + (spec_frame(second) + rest));
    assert(stream.skip(spec_frame(first).len() as int) =~= spec_frame(second) + rest);
}

} // verus!
