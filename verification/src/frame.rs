//! The wire format: a frame is a 4-byte little-endian length followed by that
//! many payload bytes, and the length never exceeds [`VSH_BUF_SIZE`].

use vstd::prelude::*;

verus! {

/// Largest payload, in bytes, that one frame may carry.
pub const VSH_BUF_SIZE: usize = 4096;

/// Number of bytes in the length header of a frame.
pub const FRAME_HEADER_SIZE: usize = 4;

/// The header that announces a payload of `len` bytes: `len` as an unsigned
/// 32-bit integer, least significant byte first.
pub open spec fn spec_header(len: u32) -> Seq<u8> {
    seq![
        (len % 256) as u8,
        (len / 256 % 256) as u8,
        (len / 65536 % 256) as u8,
        (len / 16777216) as u8,
    ]
}

/// The payload length that a 4-byte header announces.
pub open spec fn spec_frame_len(header: Seq<u8>) -> nat
    recommends
        header.len() == 4,
{
    (header[0] + 256 * header[1] + 65536 * header[2] + 16777216 * header[3]) as nat
}

/// Writes `len` as a frame header.
pub fn encode_header(len: u32) -> (header: [u8; 4])
    ensures
        header@ == spec_header(len),
{
    let b0: u8 = (len % 256) as u8;
    let b1: u8 = (len / 256 % 256) as u8;
    let b2: u8 = (len / 65536 % 256) as u8;
    let b3: u8 = (len / 16777216) as u8;
    let header = [b0, b1, b2, b3];
    assert(header@ =~= spec_header(len));
    header
}

/// Reads the payload length out of a frame header.
pub fn decode_header(header: &[u8; 4]) -> (len: u32)
    ensures
        len == spec_frame_len(header@),
{
    let b0: u32 = header[0] as u32;
    let b1: u32 = header[1] as u32;
    let b2: u32 = header[2] as u32;
    let b3: u32 = header[3] as u32;
    b0 + 256 * b1 + 65536 * b2 + 16777216 * b3
}

/// The bytes of one frame on the wire: the header for the payload's length,
/// then the payload.
pub open spec fn spec_frame(payload: Seq<u8>) -> Seq<u8>
    recommends
        payload.len() <= VSH_BUF_SIZE,
{
    spec_header(payload.len() as u32) + payload
}

/// The number of bytes that a frame with a payload of `len` bytes takes on
/// the wire.
pub open spec fn spec_frame_size(len: nat) -> nat {
    FRAME_HEADER_SIZE as nat + len
}

/// What a receiver finds at the front of a byte stream.
pub enum FrameRead {
    /// A whole frame: its payload, and how many bytes of the stream it took.
    Frame { payload: Seq<u8>, consumed: nat },
    /// A header that announces more than a frame may carry. Nothing after the
    /// header is looked at.
    Oversize { len: nat },
    /// The stream ends before the header or the payload is complete.
    Truncated,
}

/// Reads one frame from the front of `stream`.
pub open spec fn spec_read_frame(stream: Seq<u8>) -> FrameRead {
    if stream.len() < FRAME_HEADER_SIZE {
        FrameRead::Truncated
    } else {
        let len = spec_frame_len(stream.subrange(0, 4));
        if len > VSH_BUF_SIZE {
            FrameRead::Oversize { len }
        } else if stream.len() < 4 + len {
            FrameRead::Truncated
        } else {
            FrameRead::Frame { payload: stream.subrange(4, 4 + len as int), consumed: spec_frame_size(len) }
        }
    }
}

/// A header is four bytes, and reading it gives back the length it was
/// written for.
pub proof fn lemma_header_round_trip(len: u32)
    ensures
        spec_header(len).len() == FRAME_HEADER_SIZE,
        spec_frame_len(spec_header(len)) == len,
{
}

/// Four bytes announce a length that fits 32 bits, and are the only header
/// for that length.
pub proof fn lemma_header_unique(header: Seq<u8>)
    requires
        header.len() == FRAME_HEADER_SIZE,
    ensures
        spec_frame_len(header) <= u32::MAX,
        spec_header(spec_frame_len(header) as u32) == header,
{
    let b0 = header[0] as u32;
    let b1 = header[1] as u32;
    let b2 = header[2] as u32;
    let b3 = header[3] as u32;
    let len = (b0 + 256 * b1 + 65536 * b2 + 16777216 * b3) as u32;
    assert(len % 256 == b0 && len / 256 % 256 == b1 && len / 65536 % 256 == b2 && len / 16777216
        == b3) by (bit_vector)
        requires
            b0 < 256,
            b1 < 256,
            b2 < 256,
            b3 < 256,
            len == (b0 + 256 * b1 + 65536 * b2 + 16777216 * b3) as u32,
    ;
    assert(spec_header(len) =~= header);
}

/// A payload within the size bound, framed and put in front of any other
/// bytes, is read back whole, and the read stops where the frame ends.
pub proof fn lemma_frame_round_trip(payload: Seq<u8>, rest: Seq<u8>)
    requires
        payload.len() <= VSH_BUF_SIZE,
    ensures
        spec_frame(payload).len() == spec_frame_size(payload.len()),
        spec_read_frame(spec_frame(payload) + rest) == (FrameRead::Frame {
            payload,
            consumed: spec_frame_size(payload.len()),
        }),
        (spec_frame(payload) + rest).skip(spec_frame_size(payload.len()) as int) == rest,
{
    let len = payload.len() as u32;
    let stream = spec_frame(payload) + rest;
    lemma_header_round_trip(len);
    assert(stream.subrange(0, 4) =~= spec_header(len));
    assert(stream.subrange(4, 4 + payload.len() as int) =~= payload);
    assert(stream.skip(4 + payload.len() as int) =~= rest);
}

/// Frames sent one after the other are read back one after the other: after
/// the first is read, what is left of the stream starts with the second.
pub proof fn lemma_frames_in_sequence(first: Seq<u8>, second: Seq<u8>, rest: Seq<u8>)
    requires
        first.len() <= VSH_BUF_SIZE,
        second.len() <= VSH_BUF_SIZE,
    ensures
        spec_read_frame(spec_frame(first) + spec_frame(second) + rest) == (FrameRead::Frame {
            payload: first,
            consumed: spec_frame_size(first.len()),
        }),
        spec_read_frame(
            (spec_frame(first) + spec_frame(second) + rest).skip(
                spec_frame_size(first.len()) as int,
            ),
        ) == (FrameRead::Frame { payload: second, consumed: spec_frame_size(second.len()) }),
{
    let tail = spec_frame(second) + rest;
    assert(spec_frame(first) + spec_frame(second) + rest =~= spec_frame(first) + tail);
    lemma_frame_round_trip(first, tail);
    lemma_frame_round_trip(second, rest);
}

/// A header that announces more than a frame may carry is refused on the
/// header alone: whatever follows it in the stream, the outcome is the same.
pub proof fn lemma_oversize_header_refused(header: Seq<u8>, rest: Seq<u8>)
    requires
        header.len() == FRAME_HEADER_SIZE,
        spec_frame_len(header) > VSH_BUF_SIZE,
    ensures
        spec_read_frame(header + rest) == (FrameRead::Oversize { len: spec_frame_len(header) }),
{
    assert((header + rest).subrange(0, 4) =~= header);
}

} // verus!
