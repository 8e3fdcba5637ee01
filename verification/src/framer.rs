//! Length-prefixed frame codec.
//!
//! A frame on the wire is a `u32` big-endian length followed by exactly that
//! many bytes of payload. `encode_frame` produces one frame; `FrameDecoder`
//! consumes a byte stream incrementally and hands back complete payloads,
//! keeping a running count of the bytes it has consumed (payload plus the
//! four-byte prefix), as the connection's rx counter.

use vstd::prelude::*;

verus! {

/// The four big-endian bytes of a `u32` length prefix.
pub open spec fn be32_bytes(n: u32) -> Seq<u8> {
    seq![
        ((n >> 24) & 0xff) as u8,
        ((n >> 16) & 0xff) as u8,
        ((n >> 8) & 0xff) as u8,
        (n & 0xff) as u8,
    ]
}

/// The `u32` read back from four big-endian bytes.
pub open spec fn be32_value(b0: u8, b1: u8, b2: u8, b3: u8) -> u32 {
    ((b0 as u32) << 24) | ((b1 as u32) << 16) | ((b2 as u32) << 8) | (b3 as u32)
}

/// Writing a length prefix and reading it back yields the same value.
pub proof fn lemma_be32_round_trip(n: u32)
    ensures
        be32_value(
            ((n >> 24) & 0xff) as u8,
            ((n >> 16) & 0xff) as u8,
            ((n >> 8) & 0xff) as u8,
            (n & 0xff) as u8,
        ) == n,
{
    assert((((((n >> 24) & 0xff) as u8) as u32) << 24 | ((((n >> 16) & 0xff) as u8) as u32) << 16
        | ((((n >> 8) & 0xff) as u8) as u32) << 8 | (((n & 0xff) as u8) as u32)) == n)
        by (bit_vector);
}

/// One encoded frame: the length prefix followed by the payload.
pub open spec fn spec_frame(payload: Seq<u8>) -> Seq<u8>
    recommends
        payload.len() <= u32::MAX,
{
    be32_bytes(payload.len() as u32) + payload
}

/// A whole sequence of frames, encoded back to back.
pub open spec fn spec_frames_encode(frames: Seq<Seq<u8>>) -> Seq<u8>
    decreases frames.len(),
{
    if frames.len() == 0 {
        Seq::empty()
    } else {
        spec_frame(frames.first()) + spec_frames_encode(frames.drop_first())
    }
}

/// Every payload fits under the length prefix.
pub open spec fn frames_wf(frames: Seq<Seq<u8>>) -> bool {
    forall|i: int| 0 <= i < frames.len() ==> #[trigger] frames[i].len() <= u32::MAX
}

/// The payload length announced by the prefix at the head of `bytes`.
pub open spec fn spec_frame_len(bytes: Seq<u8>) -> int
    recommends
        bytes.len() >= 4,
{
    be32_value(bytes[0], bytes[1], bytes[2], bytes[3]) as int
}

/// Whether `bytes` starts with one complete frame.
pub open spec fn frame_ready(bytes: Seq<u8>) -> bool {
    bytes.len() >= 4 && bytes.len() >= 4 + spec_frame_len(bytes)
}

/// Decodes a back-to-back frame sequence completely, or `None` if the bytes
/// end mid-frame.
pub open spec fn spec_frames_decode(bytes: Seq<u8>) -> Option<Seq<Seq<u8>>>
    decreases bytes.len(),
{
    if bytes.len() == 0 {
        Some(Seq::empty())
    } else if !frame_ready(bytes) {
        None
    } else {
        let n = spec_frame_len(bytes);
        match spec_frames_decode(bytes.skip(4 + n)) {
            Some(rest) => Some(seq![bytes.subrange(4, 4 + n)] + rest),
            None => None,
        }
    }
}

/// The byte count of a frame sequence as it stands on the wire: each payload
/// plus its four-byte prefix.
pub open spec fn spec_frames_total_len(frames: Seq<Seq<u8>>) -> int
    decreases frames.len(),
{
    if frames.len() == 0 {
        0
    } else {
        4 + frames.first().len() + spec_frames_total_len(frames.drop_first())
    }
}

/// The framer round-trips: decoding an encoded frame sequence yields the
/// original payloads, and the bytes consumed (the rx count) equal the total
/// length of all payloads including their length prefixes.
pub proof fn lemma_framer_round_trip(frames: Seq<Seq<u8>>)
    requires
        frames_wf(frames),
    ensures
        spec_frames_decode(spec_frames_encode(frames)) == Some(frames),
        spec_frames_encode(frames).len() == spec_frames_total_len(frames),
    decreases frames.len(),
{
    if frames.len() == 0 {
        assert(spec_frames_decode(spec_frames_encode(frames)) == Some(frames));
    } else {
        let head = frames.first();
        let tail = frames.drop_first();
        let n = head.len() as int;
        let encoded = spec_frames_encode(frames);
        let head_enc = spec_frame(head);
        let tail_enc = spec_frames_encode(tail);
        assert(encoded == head_enc + tail_enc);
        assert(head_enc.len() == 4 + n);
        lemma_be32_round_trip(head.len() as u32);
        assert(encoded[0] == ((head.len() as u32 >> 24) & 0xff) as u8);
        assert(encoded[1] == ((head.len() as u32 >> 16) & 0xff) as u8);
        assert(encoded[2] == ((head.len() as u32 >> 8) & 0xff) as u8);
        assert(encoded[3] == ((head.len() as u32) & 0xff) as u8);
        assert(spec_frame_len(encoded) == n);
        assert(frame_ready(encoded));
        assert(encoded.subrange(4, 4 + n) =~= head);
        assert(encoded.skip(4 + n) =~= tail_enc);
        lemma_framer_round_trip(tail);
        assert(spec_frames_decode(encoded) == Some(seq![head] + tail));
        assert(seq![head] + tail =~= frames);
        assert(spec_frames_decode(spec_frames_encode(frames)) == Some(frames));
    }
}

/// Encodes one frame: the payload length as four big-endian bytes, then the
/// payload itself.
pub fn encode_frame(payload: &[u8]) -> (r: Vec<u8>)
    requires
        payload@.len() <= u32::MAX,
    ensures
        r@ == spec_frame(payload@),
        r@.len() == payload@.len() + 4,
{
    let n = payload.len() as u32;
    let mut out: Vec<u8> = Vec::new();
    out.push(((n >> 24) & 0xff) as u8);
    out.push(((n >> 16) & 0xff) as u8);
    out.push(((n >> 8) & 0xff) as u8);
    out.push((n & 0xff) as u8);
    assert(out@ =~= be32_bytes(n));
    let mut i: usize = 0;
    while i < payload.len()
        invariant
            i <= payload@.len(),
            payload@.len() <= u32::MAX,
            out@ == be32_bytes(payload@.len() as u32) + payload@.subrange(0, i as int),
        decreases payload@.len() - i,
    {
        out.push(payload[i]);
        i = i + 1;
        assert(out@ =~= be32_bytes(payload@.len() as u32) + payload@.subrange(0, i as int));
    }
    assert(payload@.subrange(0, payload@.len() as int) =~= payload@);
    out
}

/// The reading half of the codec. Bytes from the stream are fed in as they
/// arrive; complete payloads are taken out. `rx` counts every byte consumed,
/// four prefix bytes per frame included, wrapping like the machine counter
/// it models.
pub struct FrameDecoder {
    buf: Vec<u8>,
    rx: usize,
}

impl FrameDecoder {
    /// Bytes received but not yet taken out as a frame.
    pub closed spec fn pending(self) -> Seq<u8> {
        self.buf@
    }

    /// Bytes consumed so far, length prefixes included.
    pub closed spec fn rx_count(self) -> usize {
        self.rx
    }

    /// Reads the rx counter.
    pub fn rx(&self) -> (r: usize)
        ensures
            r == self.rx_count(),
    {
        self.rx
    }

    /// An empty decoder.
    pub fn new() -> (r: FrameDecoder)
        ensures
            r.pending() == Seq::<u8>::empty(),
            r.rx_count() == 0,
    {
        FrameDecoder { buf: Vec::new(), rx: 0 }
    }

    /// Appends bytes read from the stream.
    pub fn feed(&mut self, data: &[u8])
        ensures
            final(self).pending() == old(self).pending() + data@,
            final(self).rx_count() == old(self).rx_count(),
    {
        let mut i: usize = 0;
        while i < data.len()
            invariant
                i <= data@.len(),
                self.buf@ == old(self).buf@ + data@.subrange(0, i as int),
                self.rx == old(self).rx,
            decreases data@.len() - i,
        {
            self.buf.push(data[i]);
            i = i + 1;
            assert(self.buf@ =~= old(self).buf@ + data@.subrange(0, i as int));
        }
        assert(data@.subrange(0, data@.len() as int) =~= data@);
    }

    /// Takes the frame at the head of the pending bytes, if one is complete:
    /// returns its payload, drops it from the buffer, and counts its bytes
    /// (payload plus prefix) into `rx`. Returns `None`, changing nothing,
    /// while the head frame is still partial.
    pub fn take_frame(&mut self) -> (r: Option<Vec<u8>>)
        ensures
            frame_ready(old(self).pending()) ==> {
                let n = spec_frame_len(old(self).pending());
                &&& r is Some
                &&& r->Some_0@ == old(self).pending().subrange(4, 4 + n)
                &&& final(self).pending() == old(self).pending().skip(4 + n)
                &&& final(self).rx_count() == vstd::wrapping::usize_specs::wrapping_add(
                    old(self).rx_count(),
                    (4 + n) as usize,
                )
            },
            !frame_ready(old(self).pending()) ==> {
                &&& r is None
                &&& *final(self) == *old(self)
            },
    {
        if self.buf.len() < 4 {
            return None;
        }
        let n32 = be32_read(self.buf[0], self.buf[1], self.buf[2], self.buf[3]);
        let n = n32 as usize;
        assert(n == spec_frame_len(self.buf@));
        if self.buf.len() - 4 < n {
            return None;
        }
        let end: usize = 4 + n;
        let mut payload: Vec<u8> = Vec::new();
        let mut i: usize = 4;
        while i < end
            invariant
                4 <= i <= end,
                end == 4 + n,
                end <= self.buf@.len(),
                payload@ == self.buf@.subrange(4, i as int),
            decreases end - i,
        {
            payload.push(self.buf[i]);
            i = i + 1;
            assert(payload@ =~= self.buf@.subrange(4, i as int));
        }
        let mut rest: Vec<u8> = Vec::new();
        let mut j: usize = end;
        while j < self.buf.len()
            invariant
                end == 4 + n,
                end <= j <= self.buf@.len(),
                rest@ == self.buf@.subrange(4 + n as int, j as int),
            decreases self.buf@.len() - j,
        {
            rest.push(self.buf[j]);
            j = j + 1;
            assert(rest@ =~= self.buf@.subrange(4 + n as int, j as int));
        }
        assert(rest@ =~= self.buf@.skip(4 + n as int));
        self.buf = rest;
        self.rx = self.rx.wrapping_add(4 + n);
        Some(payload)
    }
}

/// Reads a `u32` from four big-endian bytes.
pub fn be32_read(b0: u8, b1: u8, b2: u8, b3: u8) -> (r: u32)
    ensures
        r == be32_value(b0, b1, b2, b3),
{
    ((b0 as u32) << 24) | ((b1 as u32) << 16) | ((b2 as u32) << 8) | (b3 as u32)
}

} // verus!
