//! Frames with a two-byte big-endian length, as exchanged by the house server and clients.
use vstd::prelude::*;

use crate::framing::{
    be_value, decode_frame, decode_frame_from, encode_frame, encoded, DecodeError, FrameDecoder, FrameOutcome,
    ReadEvent,
};

verus! {

/// The largest payload length the two-byte header can hold.
pub const MAX_SIZE: usize = 65535;

/// The number of bytes of the length header.
pub const LENGTH_SIZE: usize = 2;

/// The frame of `bytes`: its length in two bytes, most significant first (modulo 65536), then the bytes.
pub fn encode_bytes(bytes: &[u8]) -> (msg: Vec<u8>)
    requires
        bytes@.len() + 2 <= usize::MAX,
    ensures
        msg@ == encoded(bytes@, 2),
{
    encode_frame(bytes, LENGTH_SIZE)
}

/// A decoder of frames with a two-byte length, fed one read event at a time.
pub fn frame_decoder() -> (d: FrameDecoder)
    ensures
        d.width() == 2,
        d.events() == Seq::<ReadEvent>::empty(),
{
    FrameDecoder::new(LENGTH_SIZE)
}

/// Decodes one frame from the recorded items of a stream that ends after them; returns the
/// payload or why there is none, and how many items were taken.
pub fn decode_bytes(items: &[ReadEvent]) -> (r: (Result<Vec<u8>, DecodeError>, usize))
    requires
        !(decode_frame(2, items@.push(ReadEvent::End)).0 is HeaderTruncated),
    ensures
        match decode_frame(2, items@.push(ReadEvent::End)) {
            (FrameOutcome::Frame(payload), n) => r.0 matches Ok(v) && v@ == payload && r.1 == n,
            (FrameOutcome::StreamEmpty, n) => r.0 == Err::<Vec<u8>, DecodeError>(DecodeError::StreamEmpty) && r.1 == n,
            (FrameOutcome::ReadFailed, n) => r.0 == Err::<Vec<u8>, DecodeError>(DecodeError::ReadFailed) && r.1 == n,
            _ => false,
        },
{
    decode_frame_from(LENGTH_SIZE, items)
}

/// The payload length a two-byte header announces.
pub fn frame_length(header: [u8; 2]) -> (n: usize)
    ensures
        n == be_value(header@),
{
    proof {
        assert(header@.len() == 2);
        assert(header@.drop_last() =~= seq![header@[0]]);
        assert(seq![header@[0]].drop_last() =~= Seq::<u8>::empty());
        assert(be_value(Seq::<u8>::empty()) == 0);
        assert(be_value(seq![header@[0]]) == header@[0]);
        assert(be_value(header@) == header@[0] * 256 + header@[1]);
    }
    header[0] as usize * 256 + header[1] as usize
}

/// What one non-blocking read attempt gave.
#[derive(Debug, Clone, Copy, PartialEq, Eq, Structural)]
pub enum ReadAttempt {
    /// This many bytes were read; zero means the reader is at its end.
    Read(usize),
    /// The reader was not ready.
    WouldBlock,
    /// The read failed.
    Failed,
}

/// What to do after a read attempt while filling a buffer.
#[derive(Debug, Clone, Copy, PartialEq, Eq, Structural)]
pub enum ReadDecision {
    /// Keep reading; this many bytes are in the buffer.
    Continue(usize),
    /// Stop: the reader ended after some bytes; the rest of the buffer stays as it is.
    Done,
    /// Fail: the reader ended before any byte.
    Empty,
    /// Fail with the read error.
    Fail,
}

/// The decision of the loop that fills a buffer of `wanted` bytes, of which `read` are in,
/// after a read attempt.
pub fn next_read_decision(read: usize, wanted: usize, attempt: ReadAttempt) -> (d: ReadDecision)
    requires
        read < wanted,
        attempt matches ReadAttempt::Read(n) ==> n <= wanted - read,
    ensures
        d == match attempt {
            ReadAttempt::Read(n) => if n == 0 {
                if read == 0 { ReadDecision::Empty } else { ReadDecision::Done }
            } else {
                ReadDecision::Continue((read + n) as usize)
            },
            ReadAttempt::WouldBlock => ReadDecision::Continue(read),
            ReadAttempt::Failed => ReadDecision::Fail,
        },
{
    match attempt {
        ReadAttempt::Read(n) => if n == 0 {
            if read == 0 { ReadDecision::Empty } else { ReadDecision::Done }
        } else {
            ReadDecision::Continue(read + n)
        },
        ReadAttempt::WouldBlock => ReadDecision::Continue(read),
        ReadAttempt::Failed => ReadDecision::Fail,
    }
}

} // verus!
