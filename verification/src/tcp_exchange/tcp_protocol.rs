//! Frames with a two-byte big-endian length, as exchanged over a stream.
use vstd::prelude::*;

use crate::framing::{
    decode_frame, decode_frame_from, encode_frame, encoded, DecodeError, FrameDecoder, FrameOutcome,
    ReadEvent,
};

verus! {

/// The number of bytes of the length header.
pub const LENGTH_SIZE: usize = 2;

/// The frame of `bytes`: its length in two bytes, most significant first (modulo 65536), then the bytes.
pub fn encode_bytes(bytes: &[u8]) -> (msg: Vec<u8>)
    requires
        bytes@.len() + 2 <= usize::MAX,
    ensures
        msg@ == encoded(bytes@, 2),
{
    encode_frame(bytes, LENGTH_SIZE)
}

/// A decoder of frames with a two-byte length, fed one read event at a time.
pub fn frame_decoder() -> (d: FrameDecoder)
    ensures
        d.width() == 2,
        d.events() == Seq::<ReadEvent>::empty(),
{
    FrameDecoder::new(LENGTH_SIZE)
}

/// Decodes one frame from the recorded items of a stream that ends after them; returns the
/// payload or why there is none, and how many items were taken.
pub fn decode_bytes(items: &[ReadEvent]) -> (r: (Result<Vec<u8>, DecodeError>, usize))
    requires
        !(decode_frame(2, items@.push(ReadEvent::End)).0 is HeaderTruncated),
    ensures
        match decode_frame(2, items@.push(ReadEvent::End)) {
            (FrameOutcome::Frame(payload), n) => r.0 matches Ok(v) && v@ == payload && r.1 == n,
            (FrameOutcome::StreamEmpty, n) => r.0 == Err::<Vec<u8>, DecodeError>(DecodeError::StreamEmpty) && r.1 == n,
            (FrameOutcome::ReadFailed, n) => r.0 == Err::<Vec<u8>, DecodeError>(DecodeError::ReadFailed) && r.1 == n,
            _ => false,
        },
{
    decode_frame_from(LENGTH_SIZE, items)
}

} // verus!
