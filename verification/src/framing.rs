//! Length-prefixed frames: a big-endian length of a fixed number of bytes, then the payload.
//!
//! A frame is read from a stream of read events: a byte, a failed read, or the end of the
//! stream. Decoding reads the length, then as many payload bytes as it announces; the end
//! of the stream after the length cuts the payload short, the end within the length is a
//! truncated header, and a failed read ends the frame with that failure.
use vstd::prelude::*;

verus! {

/// One read from a byte stream.
#[derive(Debug, Clone, Copy, PartialEq, Eq, Structural)]
pub enum ReadEvent {
    Byte(u8),
    Failure,
    End,
}

/// How the decoding of a frame ends.
pub enum FrameOutcome {
    /// More events are needed.
    Pending,
    /// A frame with this payload.
    Frame(Seq<u8>),
    /// The stream ended before its first byte.
    StreamEmpty,
    /// A read failed.
    ReadFailed,
    /// The stream ended within the length header.
    HeaderTruncated,
}

/// `256` to the power `n`.
pub open spec fn pow256(n: nat) -> nat
    decreases n,
{
    if n == 0 { 1 } else { 256 * pow256((n - 1) as nat) }
}

/// The number written by the bytes `s`, most significant first.
pub open spec fn be_value(s: Seq<u8>) -> nat
    decreases s.len(),
{
    if s.len() == 0 { 0 } else { be_value(s.drop_last()) * 256 + s.last() as nat }
}

/// The `w` bytes that write `n` modulo `256^w`, most significant first.
pub open spec fn be_bytes(n: nat, w: nat) -> Seq<u8>
    decreases w,
{
    if w == 0 { Seq::empty() } else { be_bytes(n / 256, (w - 1) as nat).push((n % 256) as u8) }
}

/// A frame: the length of the payload in `w` bytes, then the payload.
pub open spec fn encoded(payload: Seq<u8>, w: nat) -> Seq<u8> {
    be_bytes(payload.len(), w) + payload
}

/// The events of reading the bytes `s`.
pub open spec fn byte_events(s: Seq<u8>) -> Seq<ReadEvent> {
    s.map_values(|b: u8| ReadEvent::Byte(b))
}

/// The bytes of events that are all bytes.
pub open spec fn event_bytes(ev: Seq<ReadEvent>) -> Seq<u8> {
    ev.map_values(|e: ReadEvent| match e {
        ReadEvent::Byte(b) => b,
        _ => 0u8,
    })
}

/// The position of the first event that is not a byte; the length when there is none.
pub open spec fn first_stop(ev: Seq<ReadEvent>) -> nat
    decreases ev.len(),
{
    if ev.len() == 0 {
        0
    } else if ev[0] is Byte {
        1 + first_stop(ev.drop_first())
    } else {
        0
    }
}

/// How decoding a frame with a `w`-byte length from the events `ev` ends, and how many
/// stream items it takes (the end of the stream is not an item).
pub open spec fn decode_frame(w: nat, ev: Seq<ReadEvent>) -> (FrameOutcome, nat) {
    let k = first_stop(ev);
    if k < w {
        if k == ev.len() {
            (FrameOutcome::Pending, k)
        } else if ev[k as int] is Failure {
            (FrameOutcome::ReadFailed, k + 1)
        } else if k == 0 {
            (FrameOutcome::StreamEmpty, 0)
        } else {
            (FrameOutcome::HeaderTruncated, k)
        }
    } else {
        let len = be_value(event_bytes(ev.take(w as int)));
        if k >= w + len {
            (FrameOutcome::Frame(event_bytes(ev.subrange(w as int, (w + len) as int))), w + len)
        } else if k == ev.len() {
            (FrameOutcome::Pending, k)
        } else if ev[k as int] is Failure {
            (FrameOutcome::ReadFailed, k + 1)
        } else {
            (FrameOutcome::Frame(event_bytes(ev.subrange(w as int, k as int))), k)
        }
    }
}

/// Events that are all bytes.
pub open spec fn all_bytes(ev: Seq<ReadEvent>) -> bool {
    forall|i: int| 0 <= i < ev.len() ==> (#[trigger] ev[i]) is Byte
}

proof fn lemma_first_stop_bound(ev: Seq<ReadEvent>)
    ensures
        first_stop(ev) <= ev.len(),
        first_stop(ev) < ev.len() ==> !(ev[first_stop(ev) as int] is Byte),
        forall|i: int| 0 <= i < first_stop(ev) ==> (#[trigger] ev[i]) is Byte,
    decreases ev.len(),
{
    if ev.len() > 0 && ev[0] is Byte {
        lemma_first_stop_bound(ev.drop_first());
        assert forall|i: int| 0 <= i < first_stop(ev) implies (#[trigger] ev[i]) is Byte by {
            if i > 0 {
                assert(ev[i] == ev.drop_first()[i - 1]);
            }
        }
    }
}

/// The first stop is the first position whose event is not a byte.
proof fn lemma_first_stop_at(ev: Seq<ReadEvent>, k: nat)
    requires
        k <= ev.len(),
        forall|i: int| 0 <= i < k ==> (#[trigger] ev[i]) is Byte,
        k < ev.len() ==> !(ev[k as int] is Byte),
    ensures
        first_stop(ev) == k,
    decreases k,
{
    if k > 0 {
        assert(ev[0] is Byte);
        let t = ev.drop_first();
        assert forall|i: int| 0 <= i < k - 1 implies (#[trigger] t[i]) is Byte by {
            assert(t[i] == ev[i + 1]);
        }
        if k - 1 < t.len() {
            assert(t[k - 1] == ev[k as int]);
        }
        lemma_first_stop_at(t, (k - 1) as nat);
    }
}

/// `pow256` grows with its argument.
proof fn lemma_pow256_pos(n: nat)
    ensures
        pow256(n) >= 1,
    decreases n,
{
    if n > 0 {
        lemma_pow256_pos((n - 1) as nat);
    }
}

/// A number written in `s.len()` bytes is below `256^len`.
proof fn lemma_be_value_bound(s: Seq<u8>)
    ensures
        be_value(s) < pow256(s.len()),
    decreases s.len(),
{
    if s.len() > 0 {
        lemma_be_value_bound(s.drop_last());
    }
}

/// Writing `n` in `w` bytes and reading it back gives `n` modulo `256^w`.
pub proof fn lemma_be_roundtrip(n: nat, w: nat)
    ensures
        be_bytes(n, w).len() == w,
        be_value(be_bytes(n, w)) == n % pow256(w),
    decreases w,
{
    if w > 0 {
        lemma_be_roundtrip(n / 256, (w - 1) as nat);
        let b = be_bytes(n, w);
        assert(b.drop_last() =~= be_bytes(n / 256, (w - 1) as nat));
        lemma_pow256_pos((w - 1) as nat);
        let p = pow256((w - 1) as nat);
        // n == 256 * q + r with r < 256, and q == p * t + u with u < p
        let q = n / 256;
        let r = n % 256;
        let u = q % p;
        assert(be_value(b) == u * 256 + r);
        assert(n % pow256(w) == u * 256 + r) by (nonlinear_arith)
            requires
                p >= 1,
                pow256(w) == 256 * p,
                q == n / 256,
                r == n % 256,
                u == q % p,
        {
            let t = q / p;
            assert(q == p * t + u);
            assert(n == 256 * q + r);
            assert(n == (256 * p) * t + (u * 256 + r));
            assert(0 <= u * 256 + r < 256 * p);
            vstd::arithmetic::div_mod::lemma_fundamental_div_mod_converse(
                n as int,
                (256 * p) as int,
                t as int,
                (u * 256 + r) as int,
            );
        }
    }
}

/// When the first `n` events are bytes, the first stop is at `n` or later.
proof fn lemma_first_stop_after(ev: Seq<ReadEvent>, n: nat)
    requires
        n <= ev.len(),
        forall|i: int| 0 <= i < n ==> (#[trigger] ev[i]) is Byte,
    ensures
        first_stop(ev) >= n,
{
    lemma_first_stop_bound(ev);
    if first_stop(ev) < n {
        assert(ev[first_stop(ev) as int] is Byte);
    }
}

/// Decoding reads a frame back: the events of an encoded payload, whatever follows them,
/// decode to that payload, taking exactly the frame's bytes, as long as the length of the
/// payload fits in the `w` bytes of the header.
pub proof fn lemma_decode_encoded(w: nat, payload: Seq<u8>, rest: Seq<ReadEvent>)
    requires
        1 <= w,
        payload.len() < pow256(w),
    ensures
        decode_frame(w, byte_events(encoded(payload, w)) + rest) == (
            FrameOutcome::Frame(payload),
            w + payload.len(),
        ),
{
    let enc = encoded(payload, w);
    let ev = byte_events(enc) + rest;
    let len = payload.len();
    lemma_be_roundtrip(len, w);
    assert(len % pow256(w) == len) by {
        vstd::arithmetic::div_mod::lemma_small_mod(len, pow256(w));
    }
    assert(enc.len() == w + len);
    assert forall|i: int| 0 <= i < enc.len() implies (#[trigger] ev[i]) is Byte && ev[i] == ReadEvent::Byte(enc[i]) by {
        assert(ev[i] == byte_events(enc)[i]);
    }
    lemma_first_stop_after(ev, (w + len) as nat);
    assert(event_bytes(ev.take(w as int)) =~= be_bytes(len, w)) by {
        assert forall|i: int| 0 <= i < w implies event_bytes(ev.take(w as int))[i] == be_bytes(len, w)[i] by {
            assert(ev.take(w as int)[i] == ev[i]);
            assert(ev[i] == ReadEvent::Byte(enc[i]));
            assert(enc[i] == be_bytes(len, w)[i]);
        }
    }
    assert(event_bytes(ev.subrange(w as int, (w + len) as int)) =~= payload) by {
        assert forall|i: int| 0 <= i < len implies event_bytes(ev.subrange(w as int, (w + len) as int))[i]
            == payload[i] by {
            assert(ev.subrange(w as int, (w + len) as int)[i] == ev[w + i]);
            assert(ev[w + i] == ReadEvent::Byte(enc[w + i]));
            assert(enc[w + i] == payload[i]);
        }
    }
}

/// Decoding does not look past the end of a frame: once the events `p` decide the
/// outcome, events that follow them change neither the outcome nor what is taken.
pub proof fn lemma_decode_prefix(w: nat, p: Seq<ReadEvent>, q: Seq<ReadEvent>)
    requires
        1 <= w,
        !(decode_frame(w, p).0 is Pending),
    ensures
        decode_frame(w, p + q) == decode_frame(w, p),
{
    let ev = p + q;
    let k = first_stop(p);
    lemma_first_stop_bound(p);
    assert forall|i: int| 0 <= i < p.len() implies ev[i] == p[i] by {}
    if k < p.len() {
        lemma_first_stop_at(ev, k);
    } else {
        lemma_first_stop_after(ev, p.len());
    }
    let k2 = first_stop(ev);
    if k >= w {
        assert(ev.take(w as int) =~= p.take(w as int));
        let len = be_value(event_bytes(p.take(w as int)));
        if k >= w + len {
            assert(ev.subrange(w as int, (w + len) as int) =~= p.subrange(w as int, (w + len) as int));
        } else if k < p.len() {
            assert(ev.subrange(w as int, k as int) =~= p.subrange(w as int, k as int));
        }
    }
}

/// Decodes frames whose length takes `width` bytes, one read event at a time. After a frame
/// is decided the decoder starts over, ready for the next frame.
pub struct FrameDecoder {
    width: usize,
    received: Vec<u8>,
    length: u64,
    events: Ghost<Seq<ReadEvent>>,
}

/// What feeding one read event to a decoder gives.
#[derive(Debug)]
pub enum DecodeStep {
    /// The frame is not decided yet.
    Continue,
    /// A frame with this payload.
    Frame(Vec<u8>),
    /// The stream ended before its first byte.
    StreamEmpty,
    /// A read failed.
    ReadFailed,
    /// The stream ended within the length header.
    HeaderTruncated,
}

/// The step reports the outcome `o`.
pub open spec fn step_reports(r: DecodeStep, o: FrameOutcome) -> bool {
    match o {
        FrameOutcome::Pending => r is Continue,
        FrameOutcome::Frame(payload) => r matches DecodeStep::Frame(v) && v@ == payload,
        FrameOutcome::StreamEmpty => r is StreamEmpty,
        FrameOutcome::ReadFailed => r is ReadFailed,
        FrameOutcome::HeaderTruncated => r is HeaderTruncated,
    }
}

impl FrameDecoder {
    #[verifier::type_invariant]
    spec fn inv(self) -> bool {
        &&& 1 <= self.width <= 8
        &&& all_bytes(self.events@)
        &&& self.received@ == event_bytes(self.events@)
        &&& decode_frame(self.width as nat, self.events@).0 is Pending
        &&& self.events@.len() >= self.width ==> self.length == be_value(self.received@.take(self.width as int))
    }

    /// The events fed since the last decided frame.
    pub closed spec fn events(self) -> Seq<ReadEvent> {
        self.events@
    }

    /// The number of bytes of the length header.
    pub closed spec fn width(self) -> nat {
        self.width as nat
    }

    /// A decoder for frames whose length takes `width` bytes.
    pub fn new(width: usize) -> (d: FrameDecoder)
        requires
            1 <= width <= 8,
        ensures
            d.width() == width,
            d.events() == Seq::<ReadEvent>::empty(),
    {
        let received: Vec<u8> = Vec::new();
        proof {
            assert(event_bytes(Seq::<ReadEvent>::empty()) =~= received@);
            assert(first_stop(Seq::<ReadEvent>::empty()) == 0);
        }
        FrameDecoder { width, received, length: 0, events: Ghost(Seq::empty()) }
    }
}

/// `256^7`, the bound below which one more byte still fits in a `u64`.
proof fn lemma_pow256_seven()
    ensures
        pow256(7) == 72057594037927936,
{
    reveal_with_fuel(pow256, 8);
}

proof fn lemma_pow256_mono(a: nat, b: nat)
    requires
        a <= b,
    ensures
        pow256(a) <= pow256(b),
    decreases b,
{
    if a < b {
        lemma_pow256_mono(a, (b - 1) as nat);
        lemma_pow256_pos((b - 1) as nat);
    }
}

/// The number written by the first `width` bytes of `bytes`, most significant first.
fn read_length(bytes: &Vec<u8>, width: usize) -> (n: u64)
    requires
        1 <= width <= 8,
        width <= bytes@.len(),
    ensures
        n == be_value(bytes@.take(width as int)),
{
    let mut acc: u64 = 0;
    let mut i: usize = 0;
    proof {
        assert(bytes@.take(0) =~= Seq::<u8>::empty());
    }
    while i < width
        invariant
            1 <= width <= 8,
            width <= bytes@.len(),
            i <= width,
            acc == be_value(bytes@.take(i as int)),
            acc < pow256(i as nat),
        decreases width - i,
    {
        proof {
            lemma_pow256_seven();
            lemma_pow256_mono(i as nat, 7);
            assert(bytes@.take(i + 1).drop_last() =~= bytes@.take(i as int));
        }
        acc = acc * 256 + bytes[i] as u64;
        i = i + 1;
    }
    acc
}

impl FrameDecoder {
    /// Feeds one read event. The step reports how decoding the events fed since the last
    /// decided frame, followed by this one, ends; once it is decided, the decoder starts over.
    pub fn step(&mut self, event: ReadEvent) -> (r: DecodeStep)
        ensures
            final(self).width() == old(self).width(),
            1 <= old(self).width() <= 8,
            all_bytes(old(self).events()),
            decode_frame(old(self).width(), old(self).events()).0 is Pending,
            step_reports(r, decode_frame(old(self).width(), old(self).events().push(event)).0),
            r is Continue ==> final(self).events() == old(self).events().push(event),
            !(r is Continue) ==> final(self).events() == Seq::<ReadEvent>::empty(),
    {
        proof { use_type_invariant(&*self); }
        let mut current = FrameDecoder::new(self.width);
        std::mem::swap(self, &mut current);
        proof { use_type_invariant(&current); }
        let FrameDecoder { width, mut received, length, events } = current;
        let ghost old_events = events@;
        let ghost ev = old_events.push(event);
        let ghost n = old_events.len();
        let ghost w = width as nat;
        proof {
            lemma_first_stop_at(old_events, n);
            assert(received@.len() == n);
            if n >= w {
                assert(ev.take(w as int) =~= old_events.take(w as int));
                assert(event_bytes(old_events.take(w as int)) =~= received@.take(w as int));
                assert(n < w + length);
            }
        }
        match event {
            ReadEvent::Byte(b) => {
                received.push(b);
                proof {
                    assert(all_bytes(ev));
                    lemma_first_stop_at(ev, n + 1);
                    assert(received@ =~= event_bytes(ev));
                }
                if received.len() < width {
                    *self = FrameDecoder { width, received, length, events: Ghost(ev) };
                    DecodeStep::Continue
                } else if received.len() == width {
                    let len = read_length(&received, width);
                    proof {
                        assert(ev.take(w as int) =~= ev);
                        assert(received@.take(w as int) =~= received@);
                    }
                    if len == 0 {
                        proof {
                            assert(event_bytes(ev.subrange(w as int, w as int)) =~= Seq::<u8>::empty());
                        }
                        DecodeStep::Frame(Vec::new())
                    } else {
                        *self = FrameDecoder { width, received, length: len, events: Ghost(ev) };
                        DecodeStep::Continue
                    }
                } else {
                    let got = received.len() - width;
                    if got as u64 == length {
                        let payload = received.split_off(width);
                        proof {
                            assert(payload@ =~= event_bytes(ev.subrange(w as int, (w + length) as int)));
                        }
                        DecodeStep::Frame(payload)
                    } else {
                        proof {
                            assert(received@.take(w as int) =~= event_bytes(old_events.take(w as int)));
                        }
                        *self = FrameDecoder { width, received, length, events: Ghost(ev) };
                        DecodeStep::Continue
                    }
                }
            },
            ReadEvent::Failure => {
                proof { lemma_first_stop_at(ev, n); }
                DecodeStep::ReadFailed
            },
            ReadEvent::End => {
                proof { lemma_first_stop_at(ev, n); }
                if received.len() == 0 {
                    DecodeStep::StreamEmpty
                } else if received.len() < width {
                    DecodeStep::HeaderTruncated
                } else {
                    let payload = received.split_off(width);
                    proof {
                        assert(payload@ =~= event_bytes(ev.subrange(w as int, n as int)));
                    }
                    DecodeStep::Frame(payload)
                }
            },
        }
    }
}

fn push_be_bytes(out: &mut Vec<u8>, n: u64, w: usize)
    ensures
        final(out)@ == old(out)@ + be_bytes(n as nat, w as nat),
    decreases w,
{
    if w > 0 {
        push_be_bytes(out, n / 256, w - 1);
        out.push((n % 256) as u8);
        assert(final(out)@ =~= old(out)@ + be_bytes(n as nat, w as nat));
    } else {
        assert(final(out)@ =~= old(out)@ + be_bytes(n as nat, w as nat));
    }
}

/// The frame of `bytes`: its length in `width` bytes, most significant first (modulo
/// `256^width`), then the bytes.
pub fn encode_frame(bytes: &[u8], width: usize) -> (msg: Vec<u8>)
    requires
        1 <= width <= 8,
        bytes@.len() + width <= usize::MAX,
    ensures
        msg@ == encoded(bytes@, width as nat),
{
    let mut msg: Vec<u8> = Vec::new();
    push_be_bytes(&mut msg, bytes.len() as u64, width);
    let ghost header = msg@;
    let mut i: usize = 0;
    while i < bytes.len()
        invariant
            i <= bytes@.len(),
            msg@ == header + bytes@.take(i as int),
        decreases bytes.len() - i,
    {
        msg.push(bytes[i]);
        i = i + 1;
        proof {
            assert(bytes@.take(i as int) =~= bytes@.take(i - 1).push(bytes@[i - 1]));
        }
    }
    proof {
        assert(bytes@.take(i as int) =~= bytes@);
    }
    msg
}

/// Why no frame could be read.
#[derive(Debug, PartialEq, Eq, Structural)]
pub enum DecodeError {
    /// The stream ended before its first byte.
    StreamEmpty,
    /// A read failed.
    ReadFailed,
}

/// The outcome of decoding a frame from a finished stream is decided.
proof fn lemma_decided_at_end(w: nat, ev: Seq<ReadEvent>)
    requires
        1 <= w,
    ensures
        !(decode_frame(w, ev.push(ReadEvent::End)).0 is Pending),
{
    let e = ev.push(ReadEvent::End);
    lemma_first_stop_bound(e);
    assert(e[e.len() - 1] is End);
}

/// Decodes one frame with a `width`-byte length from the recorded items of a stream, which
/// ends after them. Returns the payload or why there is none, and how many items were taken.
/// A stream that ends within the length header is left out.
pub fn decode_frame_from(width: usize, items: &[ReadEvent]) -> (r: (Result<Vec<u8>, DecodeError>, usize))
    requires
        1 <= width <= 8,
        !(decode_frame(width as nat, items@.push(ReadEvent::End)).0 is HeaderTruncated),
    ensures
        match decode_frame(width as nat, items@.push(ReadEvent::End)) {
            (FrameOutcome::Frame(payload), n) => r.0 matches Ok(v) && v@ == payload && r.1 == n,
            (FrameOutcome::StreamEmpty, n) => r.0 == Err::<Vec<u8>, DecodeError>(DecodeError::StreamEmpty) && r.1 == n,
            (FrameOutcome::ReadFailed, n) => r.0 == Err::<Vec<u8>, DecodeError>(DecodeError::ReadFailed) && r.1 == n,
            _ => false,
        },
{
    let ghost all = items@.push(ReadEvent::End);
    let ghost w = width as nat;
    proof { lemma_decided_at_end(w, items@); }
    let mut decoder = FrameDecoder::new(width);
    let mut i: usize = 0;
    while i <= items.len()
        invariant
            1 <= width <= 8,
            w == width,
            all == items@.push(ReadEvent::End),
            !(decode_frame(w, all).0 is HeaderTruncated),
            !(decode_frame(w, all).0 is Pending),
            decoder.width() == w,
            i <= items@.len() + 1,
            decoder.events() == all.take(i as int),
            decode_frame(w, all.take(i as int)).0 is Pending,
        decreases items.len() + 1 - i,
    {
        let event = if i < items.len() { items[i] } else { ReadEvent::End };
        proof {
            assert(event == all[i as int]);
            assert(all.take(i as int).push(event) =~= all.take(i + 1));
        }
        let ghost before = decoder.events();
        let step = decoder.step(event);
        let ghost ev = all.take(i + 1);
        proof {
            lemma_first_stop_at(before, before.len());
            if event is Byte {
                assert(all_bytes(ev));
                lemma_first_stop_at(ev, ev.len());
            } else {
                lemma_first_stop_at(ev, before.len());
            }
            if i >= w {
                assert(ev.take(w as int) =~= before.take(w as int));
            }
            if !(step is Continue) {
                assert(all =~= ev + all.subrange(i + 1, all.len() as int));
                lemma_decode_prefix(w, ev, all.subrange(i + 1, all.len() as int));
            }
        }
        match step {
            DecodeStep::Continue => {},
            DecodeStep::Frame(v) => {
                let taken = if event == ReadEvent::End { i } else { i + 1 };
                return (Ok(v), taken);
            },
            DecodeStep::StreamEmpty => return (Err(DecodeError::StreamEmpty), i),
            DecodeStep::ReadFailed => return (Err(DecodeError::ReadFailed), i + 1),
            DecodeStep::HeaderTruncated => {
                proof { assert(false); }
                return (Err(DecodeError::StreamEmpty), i);
            },
        }
        i = i + 1;
    }
    proof {
        assert(all.take(i as int) =~= all);
    }
    (Err(DecodeError::StreamEmpty), 0)
}

} // verus!
