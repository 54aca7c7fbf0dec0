//! Frames on the private worker channel: a four-byte big-endian length, then
//! exactly that many bytes of payload.
use vstd::prelude::*;

verus! {

/// The number that four bytes spell in network byte order.
pub open spec fn be32(b0: u8, b1: u8, b2: u8, b3: u8) -> nat {
    (b0 as nat) * 16777216 + (b1 as nat) * 65536 + (b2 as nat) * 256 + (b3 as nat)
}

/// The four bytes of a length in network byte order.
pub open spec fn be32_bytes(n: u32) -> Seq<u8> {
    seq![
        (n / 16777216) as u8,
        ((n / 65536) % 256) as u8,
        ((n / 256) % 256) as u8,
        (n % 256) as u8,
    ]
}

/// The frame that carries `payload`.
pub open spec fn frame_spec(payload: Seq<u8>) -> Seq<u8> {
    be32_bytes(payload.len() as u32) + payload
}

/// What the front of a stream holds.
#[derive(Debug, PartialEq, Eq)]
pub enum FrameSplit {
    /// The stream ends before a whole frame: more bytes are needed.
    Incomplete,
    /// A whole frame: its payload, and the number of bytes it took.
    Frame(Vec<u8>, usize),
}

/// The first frame of a stream, if the stream holds a whole one.
pub open spec fn split_spec(s: Seq<u8>) -> Option<(Seq<u8>, nat)> {
    if s.len() < 4 {
        None
    } else {
        let n = be32(s[0], s[1], s[2], s[3]);
        if s.len() < 4 + n {
            None
        } else {
            Some((s.subrange(4, 4 + n as int), 4 + n))
        }
    }
}

/// The payload length that a frame header announces.
pub fn header_length(h0: u8, h1: u8, h2: u8, h3: u8) -> (r: u32)
    ensures
        r as nat == be32(h0, h1, h2, h3),
{
    assert((h0 as nat) * 16777216 <= 255 * 16777216) by (nonlinear_arith)
        requires h0 <= 255;
    assert((h1 as nat) * 65536 <= 255 * 65536) by (nonlinear_arith)
        requires h1 <= 255;
    (h0 as u32) * 16777216 + (h1 as u32) * 65536 + (h2 as u32) * 256 + (h3 as u32)
}

proof fn lemma_be32_round_trip(n: u32)
    ensures
        be32_bytes(n).len() == 4,
        be32(be32_bytes(n)[0], be32_bytes(n)[1], be32_bytes(n)[2], be32_bytes(n)[3]) == n as nat,
{
    let a = n / 16777216;
    let b = (n / 65536) % 256;
    let c = (n / 256) % 256;
    let d = n % 256;
    assert(a * 16777216 + b * 65536 + c * 256 + d == n) by (nonlinear_arith)
        requires
            a == n / 16777216,
            b == (n / 65536) % 256,
            c == (n / 256) % 256,
            d == n % 256,
            0 <= n,
    {
        assert(n == 256 * (n / 256) + n % 256);
        assert(n / 256 == 256 * ((n / 256) / 256) + (n / 256) % 256);
        assert((n / 256) / 256 == n / 65536);
        assert(n / 65536 == 256 * ((n / 65536) / 256) + (n / 65536) % 256);
        assert((n / 65536) / 256 == n / 16777216);
    }
    assert(a < 256);
}

/// Frames `payload`: its length in four big-endian bytes, then the payload.
pub fn encode_frame(payload: &[u8]) -> (r: Vec<u8>)
    requires
        payload@.len() <= u32::MAX,
    ensures
        r@ == frame_spec(payload@),
        r@.len() == payload@.len() + 4,
{
    let n = payload.len() as u32;
    let mut out: Vec<u8> = Vec::new();
    out.push((n / 16777216) as u8);
    out.push(((n / 65536) % 256) as u8);
    out.push(((n / 256) % 256) as u8);
    out.push((n % 256) as u8);
    assert(out@ =~= be32_bytes(n));
    let mut i: usize = 0;
    while i < payload.len()
        invariant
            i <= payload@.len(),
            out@ == be32_bytes(n) + payload@.take(i as int),
        decreases payload@.len() - i,
    {
        out.push(payload[i]);
        i = i + 1;
        assert(out@ =~= be32_bytes(n) + payload@.take(i as int));
    }
    assert(payload@.take(i as int) =~= payload@);
    out
}

/// The bytes of `s` from `from` up to `to`.
pub fn copy_range(s: &[u8], from: usize, to: usize) -> (r: Vec<u8>)
    requires
        from <= to <= s@.len(),
    ensures
        r@ == s@.subrange(from as int, to as int),
{
    let mut out: Vec<u8> = Vec::new();
    let mut i: usize = from;
    while i < to
        invariant
            from <= i <= to <= s@.len(),
            out@ == s@.subrange(from as int, i as int),
        decreases to - i,
    {
        out.push(s[i]);
        i = i + 1;
        assert(out@ =~= s@.subrange(from as int, i as int));
    }
    out
}

/// Splits the first frame off a stream: its payload and the bytes it took,
/// or `Incomplete` while the stream is shorter than the header announces.
pub fn split_frame(s: &[u8]) -> (r: FrameSplit)
    ensures
        match r {
            FrameSplit::Incomplete => split_spec(s@).is_none(),
            FrameSplit::Frame(p, used) => split_spec(s@) == Some((p@, used as nat)),
        },
{
    if s.len() < 4 {
        return FrameSplit::Incomplete;
    }
    let n = header_length(s[0], s[1], s[2], s[3]);
    if s.len() - 4 < n as usize {
        return FrameSplit::Incomplete;
    }
    let end = 4 + n as usize;
    FrameSplit::Frame(copy_range(s, 4, end), end)
}

/// A stream that holds a frame of a payload followed by anything yields that
/// payload first.
pub proof fn lemma_frame_round_trip(payload: Seq<u8>, rest: Seq<u8>)
    requires
        payload.len() <= u32::MAX,
    ensures
        split_spec(frame_spec(payload) + rest) == Some((payload, payload.len() + 4)),
{
    lemma_be32_round_trip(payload.len() as u32);
    let s = frame_spec(payload) + rest;
    assert(s[0] == be32_bytes(payload.len() as u32)[0]);
    assert(s[1] == be32_bytes(payload.len() as u32)[1]);
    assert(s[2] == be32_bytes(payload.len() as u32)[2]);
    assert(s[3] == be32_bytes(payload.len() as u32)[3]);
    assert(s.subrange(4, 4 + payload.len() as int) =~= payload);
}

} // verus!
