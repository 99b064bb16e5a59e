//! The Connect streaming envelope: `[flags: u8][length: u32 big-endian][payload]`.

use vstd::prelude::*;
use crate::event::{envd_event_spec, event_view, parse_envd_event};
use crate::models::{EnvdEvent, EnvdEventModel};

verus! {

/// The four big-endian bytes of `n`.
pub open spec fn be32_bytes(n: u32) -> Seq<u8> {
    seq![
        (n / 0x100_0000) as u8,
        ((n / 0x1_0000) % 0x100) as u8,
        ((n / 0x100) % 0x100) as u8,
        (n % 0x100) as u8,
    ]
}

/// The number that four big-endian bytes encode.
pub open spec fn be32_value(b0: u8, b1: u8, b2: u8, b3: u8) -> nat {
    (b0 as nat) * 0x100_0000 + (b1 as nat) * 0x1_0000 + (b2 as nat) * 0x100 + (b3 as nat)
}

/// The envelope that wraps `payload`: a zero flags byte, the payload length
/// reduced modulo 2^32 in big-endian order, then the payload itself.
pub open spec fn envelope(payload: Seq<u8>) -> Seq<u8> {
    seq![0u8] + be32_bytes(payload.len() as u32) + payload
}

fn be32_encode(n: u32) -> (b: [u8; 4])
    ensures
        b@ == be32_bytes(n),
{
    let b0 = (n >> 24) as u8;
    let b1 = ((n >> 16) & 0xff) as u8;
    let b2 = ((n >> 8) & 0xff) as u8;
    let b3 = (n & 0xff) as u8;
    assert(b0 == (n / 0x100_0000) as u8 && b1 == ((n / 0x1_0000) % 0x100) as u8
        && b2 == ((n / 0x100) % 0x100) as u8 && b3 == (n % 0x100) as u8) by (bit_vector)
        requires
            b0 == (n >> 24) as u8,
            b1 == ((n >> 16) & 0xff) as u8,
            b2 == ((n >> 8) & 0xff) as u8,
            b3 == (n & 0xff) as u8,
    ;
    [b0, b1, b2, b3]
}

/// Wrap a JSON payload in a Connect binary envelope: `[0x00][4-byte BE length][payload]`.
pub fn connect_envelope(payload: &[u8]) -> (out: Vec<u8>)
    ensures
        out@ == envelope(payload@),
{
    let len = payload.len();
    let n: u32 = len as u32;
    let header = be32_encode(n);
    let mut out: Vec<u8> = Vec::new();
    out.push(0);
    out.push(header[0]);
    out.push(header[1]);
    out.push(header[2]);
    out.push(header[3]);
    let mut i: usize = 0;
    while i < len
        invariant
            i <= len,
            len == payload@.len(),
            out@ == seq![0u8] + be32_bytes(n) + payload@.subrange(0, i as int),
        decreases len - i,
    {
        out.push(payload[i]);
        i = i + 1;
        assert(payload@.subrange(0, i as int) == payload@.subrange(0, i - 1) + seq![payload@[i - 1]]);
    }
    assert(payload@.subrange(0, len as int) == payload@);
    out
}

/// One frame of a Connect stream: its flags byte and its payload.
pub struct Frame {
    pub flags: u8,
    pub payload: Seq<u8>,
}

/// The payload length that the header at the start of `buf` declares.
pub open spec fn declared_len(buf: Seq<u8>) -> nat
    recommends
        buf.len() >= 5,
{
    be32_value(buf[1], buf[2], buf[3], buf[4])
}

/// `buf` starts with a whole frame: a header and all the payload it declares.
pub open spec fn has_complete_frame(buf: Seq<u8>) -> bool {
    buf.len() >= 5 && 5 + declared_len(buf) <= buf.len()
}

/// Where the frame at the start of `buf` ends.
pub open spec fn frame_end(buf: Seq<u8>) -> int {
    5 + declared_len(buf) as int
}

/// The whole frames at the start of `buf`, in order, up to the first one that
/// is incomplete.
pub open spec fn split_frames(buf: Seq<u8>) -> Seq<Frame>
    decreases buf.len(),
{
    if has_complete_frame(buf) {
        seq![Frame { flags: buf[0], payload: buf.subrange(5, frame_end(buf)) }] + split_frames(
            buf.skip(frame_end(buf)),
        )
    } else {
        seq![]
    }
}

/// The number of bytes that the whole frames at the start of `buf` occupy.
pub open spec fn consumed_len(buf: Seq<u8>) -> nat
    decreases buf.len(),
{
    if has_complete_frame(buf) {
        (frame_end(buf) + consumed_len(buf.skip(frame_end(buf)))) as nat
    } else {
        0
    }
}

/// The events that a sequence of frames carries: the frames whose payload
/// decodes to an event, in order.
pub open spec fn events_of_frames(frames: Seq<Frame>) -> Seq<EnvdEventModel>
    decreases frames.len(),
{
    if frames.len() == 0 {
        seq![]
    } else {
        let rest = events_of_frames(frames.drop_first());
        match envd_event_spec(frames[0].flags, frames[0].payload) {
            Some(e) => seq![e] + rest,
            None => rest,
        }
    }
}

/// The events of the whole frames at the start of `buf`.
pub open spec fn buffer_events(buf: Seq<u8>) -> Seq<EnvdEventModel> {
    events_of_frames(split_frames(buf))
}

/// The models of a vector of events.
pub open spec fn events_view(events: Seq<EnvdEvent>) -> Seq<EnvdEventModel> {
    events.map_values(|e: EnvdEvent| e@)
}

pub(crate) fn be32_decode(b0: u8, b1: u8, b2: u8, b3: u8) -> (n: u32)
    ensures
        n as nat == be32_value(b0, b1, b2, b3),
{
    let n: u32 = ((b0 as u32) << 24) | ((b1 as u32) << 16) | ((b2 as u32) << 8) | (b3 as u32);
    assert(n == (b0 as u32) * 0x100_0000 + (b1 as u32) * 0x1_0000 + (b2 as u32) * 0x100 + (b3 as u32))
        by (bit_vector)
        requires
            n == ((b0 as u32) << 24) | ((b1 as u32) << 16) | ((b2 as u32) << 8) | (b3 as u32),
    ;
    n
}

proof fn lemma_events_push(frames: Seq<Frame>, f: Frame)
    ensures
        events_of_frames(seq![f] + frames) == (match envd_event_spec(f.flags, f.payload) {
            Some(e) => seq![e] + events_of_frames(frames),
            None => events_of_frames(frames),
        }),
{
    assert((seq![f] + frames).drop_first() == frames);
}

/// The events and byte count of the whole frames at the start of `buf`.
fn scan_frames(buf: &[u8]) -> (r: (Vec<EnvdEvent>, usize))
    ensures
        events_view(r.0@) == buffer_events(buf@),
        r.1 == consumed_len(buf@),
{
    let mut events: Vec<EnvdEvent> = Vec::new();
    let mut i: usize = 0;
    let len = buf.len();
    assert(buf@.skip(0) == buf@);
    while len - i >= 5
        invariant
            i <= len,
            len == buf@.len(),
            consumed_len(buf@) == i + consumed_len(buf@.skip(i as int)),
            buffer_events(buf@) == events_view(events@) + buffer_events(buf@.skip(i as int)),
        ensures
            i <= len,
            consumed_len(buf@) == i + consumed_len(buf@.skip(i as int)),
            buffer_events(buf@) == events_view(events@) + buffer_events(buf@.skip(i as int)),
            !has_complete_frame(buf@.skip(i as int)),
        decreases len - i,
    {
        let ghost rest = buf@.skip(i as int);
        let flags = buf[i];
        let n = be32_decode(buf[i + 1], buf[i + 2], buf[i + 3], buf[i + 4]);
        let plen = n as usize;
        assert(declared_len(rest) == plen);
        if plen > len - i - 5 {
            break;
        }
        let payload = &buf[i + 5..i + 5 + plen];
        let ghost next = i + 5 + plen;
        assert(rest.skip(frame_end(rest)) == buf@.skip(next));
        assert(rest.subrange(5, frame_end(rest)) == payload@);
        let ghost f = Frame { flags, payload: payload@ };
        proof {
            lemma_events_push(split_frames(buf@.skip(next)), f);
        }
        match parse_envd_event(flags, payload) {
            Some(e) => {
                let ghost before = events@;
                events.push(e);
                assert(events_view(events@) == events_view(before) + seq![e@]);
            },
            None => {},
        }
        i = i + 5 + plen;
    }
    assert(events_view(events@) + seq![] == events_view(events@));
    (events, i)
}

pub(crate) proof fn lemma_no_frame_after_consumed(buf: Seq<u8>)
    ensures
        !has_complete_frame(buf.skip(consumed_len(buf) as int)),
        consumed_len(buf) <= buf.len(),
    decreases buf.len(),
{
    if has_complete_frame(buf) {
        let rest = buf.skip(frame_end(buf));
        lemma_no_frame_after_consumed(rest);
        assert(buf.skip(consumed_len(buf) as int) == rest.skip(consumed_len(rest) as int));
    } else {
        assert(buf.skip(0) == buf);
    }
}

/// Parse the complete Connect frames at the start of `buf` without changing it.
/// Returns the events parsed and the number of bytes the frames occupy, or
/// `None` where `buf` does not start with a complete frame.
pub fn try_parse_connect_frames(buf: &[u8]) -> (r: Option<(Vec<EnvdEvent>, usize)>)
    ensures
        r is None <==> consumed_len(buf@) == 0,
        r matches Some((events, consumed)) ==> {
            &&& events_view(events@) == buffer_events(buf@)
            &&& consumed == consumed_len(buf@)
        },
{
    let (events, consumed) = scan_frames(buf);
    if events.len() == 0 && consumed == 0 {
        None
    } else {
        proof {
            if consumed == 0 {
                assert(!has_complete_frame(buf@));
                assert(buffer_events(buf@) == Seq::<EnvdEventModel>::empty());
                assert(events_view(events@).len() == events@.len());
            }
        }
        Some((events, consumed))
    }
}

/// Parse the complete Connect frames at the start of `buf` and remove them,
/// keeping an incomplete trailing frame for more data.
pub fn drain_connect_frames(buf: &mut Vec<u8>) -> (events: Vec<EnvdEvent>)
    ensures
        events_view(events@) == buffer_events(old(buf)@),
        final(buf)@ == old(buf)@.skip(consumed_len(old(buf)@) as int),
        !has_complete_frame(final(buf)@),
{
    let (events, consumed) = scan_frames(buf.as_slice());
    proof {
        lemma_no_frame_after_consumed(old(buf)@);
    }
    let rest = buf.split_off(consumed);
    *buf = rest;
    events
}

proof fn lemma_be32_roundtrip(n: u32)
    ensures
        be32_value(be32_bytes(n)[0], be32_bytes(n)[1], be32_bytes(n)[2], be32_bytes(n)[3]) == n,
{
    let x = n as int;
    assert(x == (x / 0x100_0000) * 0x100_0000 + ((x / 0x1_0000) % 0x100) * 0x1_0000 + ((x / 0x100)
        % 0x100) * 0x100 + x % 0x100) by (nonlinear_arith)
        requires
            0 <= x < 0x1_0000_0000,
    ;
    assert(x / 0x100_0000 < 0x100) by (nonlinear_arith)
        requires
            0 <= x < 0x1_0000_0000,
    ;
}

pub(crate) proof fn lemma_envelope_header(p: Seq<u8>, rest: Seq<u8>)
    requires
        p.len() <= u32::MAX,
    ensures
        (envelope(p) + rest).len() >= 5,
        declared_len(envelope(p) + rest) == p.len(),
        (envelope(p) + rest)[0] == 0,
        envelope(p).len() == 5 + p.len(),
{
    let buf = envelope(p) + rest;
    lemma_be32_roundtrip(p.len() as u32);
    let h = be32_bytes(p.len() as u32);
    assert(buf[1] == h[0] && buf[2] == h[1] && buf[3] == h[2] && buf[4] == h[3]);
}

/// An envelope decodes back: the whole frames of `connect_envelope(p)`
/// followed by any bytes `rest` are a frame with flags 0 and payload `p`,
/// then the whole frames of `rest`; the same holds of the bytes consumed and
/// of the events. (Lengths above `u32::MAX` do not fit the header.)
pub proof fn law_envelope_roundtrip(p: Seq<u8>, rest: Seq<u8>)
    requires
        p.len() <= u32::MAX,
    ensures
        split_frames(envelope(p) + rest) == seq![Frame { flags: 0, payload: p }] + split_frames(rest),
        consumed_len(envelope(p) + rest) == envelope(p).len() + consumed_len(rest),
        buffer_events(envelope(p) + rest) == (match envd_event_spec(0, p) {
            Some(e) => seq![e] + buffer_events(rest),
            None => buffer_events(rest),
        }),
{
    let buf = envelope(p) + rest;
    lemma_envelope_header(p, rest);
    assert(has_complete_frame(buf));
    assert(buf.subrange(5, frame_end(buf)) == p);
    assert(buf.skip(frame_end(buf)) == rest);
    lemma_events_push(split_frames(rest), Frame { flags: 0, payload: p });
}

/// A strict prefix of an envelope holds no whole frame: nothing is parsed and
/// nothing consumed until the rest of the frame arrives.
pub proof fn law_partial_envelope(p: Seq<u8>, k: int)
    requires
        p.len() <= u32::MAX,
        0 <= k < envelope(p).len(),
    ensures
        split_frames(envelope(p).take(k)) == Seq::<Frame>::empty(),
        consumed_len(envelope(p).take(k)) == 0,
        buffer_events(envelope(p).take(k)) == Seq::<EnvdEventModel>::empty(),
{
    let e = envelope(p);
    let t = e.take(k);
    lemma_envelope_header(p, seq![]);
    assert(e + seq![] == e);
    if k >= 5 {
        assert(t[1] == e[1] && t[2] == e[2] && t[3] == e[3] && t[4] == e[4]);
    }
    assert(!has_complete_frame(t));
}

proof fn lemma_events_concat(x: Seq<Frame>, y: Seq<Frame>)
    ensures
        events_of_frames(x + y) == events_of_frames(x) + events_of_frames(y),
    decreases x.len(),
{
    if x.len() == 0 {
        assert(x + y == y);
    } else {
        lemma_events_concat(x.drop_first(), y);
        assert((x + y).drop_first() == x.drop_first() + y);
    }
}

proof fn lemma_skip_skip(s: Seq<u8>, i: int, j: int)
    requires
        0 <= i,
        0 <= j,
        i + j <= s.len(),
    ensures
        s.skip(i).skip(j) == s.skip(i + j),
{
    assert(s.skip(i).skip(j) =~= s.skip(i + j));
}

proof fn lemma_split_concat(a: Seq<u8>, b: Seq<u8>)
    ensures
        split_frames(a + b) == split_frames(a) + split_frames(a.skip(consumed_len(a) as int) + b),
        consumed_len(a + b) == consumed_len(a) + consumed_len(a.skip(consumed_len(a) as int) + b),
        (a + b).skip(consumed_len(a + b) as int) == (a.skip(consumed_len(a) as int) + b).skip(
            consumed_len(a.skip(consumed_len(a) as int) + b) as int,
        ),
    decreases a.len(),
{
    if has_complete_frame(a) {
        let ab = a + b;
        let end = frame_end(a);
        assert(ab[1] == a[1] && ab[2] == a[2] && ab[3] == a[3] && ab[4] == a[4] && ab[0] == a[0]);
        assert(has_complete_frame(ab));
        assert(frame_end(ab) == end);
        assert(ab.subrange(5, end) == a.subrange(5, end));
        assert(ab.skip(end) == a.skip(end) + b);
        let r = a.skip(end);
        lemma_split_concat(r, b);
        lemma_no_frame_after_consumed(r);
        lemma_no_frame_after_consumed(ab.skip(end));
        lemma_skip_skip(a, end, consumed_len(r) as int);
        lemma_skip_skip(ab, end, consumed_len(ab.skip(end)) as int);
        let f = seq![Frame { flags: a[0], payload: a.subrange(5, end) }];
        assert(f + (split_frames(r) + split_frames(r.skip(consumed_len(r) as int) + b)) == (f
            + split_frames(r)) + split_frames(r.skip(consumed_len(r) as int) + b));
    } else {
        assert(a.skip(0) == a);
        assert(split_frames(a) == Seq::<Frame>::empty());
        assert(Seq::<Frame>::empty() + split_frames(a + b) == split_frames(a + b));
    }
}

/// Chunk boundaries do not matter: draining `a`, appending `b` to what is
/// left and draining again gives the events of draining `a + b` at once, in
/// the same order, and leaves the same bytes behind.
pub proof fn law_drain_chunking(a: Seq<u8>, b: Seq<u8>)
    ensures
        ({
            let left = a.skip(consumed_len(a) as int) + b;
            &&& buffer_events(a + b) == buffer_events(a) + buffer_events(left)
            &&& (a + b).skip(consumed_len(a + b) as int) == left.skip(consumed_len(left) as int)
        }),
{
    lemma_split_concat(a, b);
    lemma_events_concat(split_frames(a), split_frames(a.skip(consumed_len(a) as int) + b));
}

/// Parsing without removing and draining agree: where no whole frame starts
/// the buffer (`try_parse_connect_frames` gives `None`), draining yields no
/// event and leaves the buffer as it was.
pub proof fn law_nothing_to_drain(buf: Seq<u8>)
    requires
        consumed_len(buf) == 0,
    ensures
        buffer_events(buf) == Seq::<EnvdEventModel>::empty(),
        buf.skip(consumed_len(buf) as int) == buf,
        !has_complete_frame(buf),
{
    assert(buf.skip(0) == buf);
    if has_complete_frame(buf) {
        assert(frame_end(buf) >= 5);
    }
}

} // verus!
