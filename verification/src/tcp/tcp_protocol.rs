//! Frames with an eight-byte big-endian length (a `usize` on 64-bit targets).
use vstd::prelude::*;

use crate::framing::{decode_frame, decode_frame_from, encode_frame, encoded, DecodeError, FrameDecoder, FrameOutcome, ReadEvent};

verus! {

/// The number of bytes of the length header.
pub const LENGTH_SIZE: usize = 8;

/// The frame of `bytes`: its length in eight bytes, most significant first, then the bytes.
pub fn encode_bytes(bytes: &[u8]) -> (msg: Vec<u8>)
    requires
        bytes@.len() + 8 <= usize::MAX,
    ensures
        msg@ == encoded(bytes@, 8),
{
    encode_frame(bytes, LENGTH_SIZE)
}

/// A decoder of frames with an eight-byte length, fed one read event at a time.
pub fn frame_decoder() -> (d: FrameDecoder)
    ensures
        d.width() == 8,
        d.events() == Seq::<ReadEvent>::empty(),
{
    FrameDecoder::new(LENGTH_SIZE)
}

/// Decodes one frame from the recorded items of a stream that ends after them; returns the
/// payload or why there is none, and how many items were taken.
pub fn decode_bytes(items: &[ReadEvent]) -> (r: (Result<Vec<u8>, DecodeError>, usize))
    requires
        !(decode_frame(8, items@.push(ReadEvent::End)).0 is HeaderTruncated),
    ensures
        match decode_frame(8, items@.push(ReadEvent::End)) {
            (FrameOutcome::Frame(payload), n) => r.0 matches Ok(v) && v@ == payload && r.1 == n,
            (FrameOutcome::StreamEmpty, n) => r.0 == Err::<Vec<u8>, DecodeError>(DecodeError::StreamEmpty) && r.1 == n,
            (FrameOutcome::ReadFailed, n) => r.0 == Err::<Vec<u8>, DecodeError>(DecodeError::ReadFailed) && r.1 == n,
            _ => false,
        },
{
    decode_frame_from(LENGTH_SIZE, items)
}

} // verus!
