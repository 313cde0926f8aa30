//! The transport adapter: it cuts the bytes that arrive into whole frames
//! and queues the frames that leave, and it survives the host going away.
//!
//! The adapter does no I/O. The caller pushes in what it has read and takes
//! out what it is to write.

use vstd::prelude::*;
use crate::frame::{
    lemma_encode_decode,
    spec_decode,
    spec_encode,
    CodecError,
    Frame,
    HEADER_LEN,
    LENGTH_LIMIT,
    MAX_FRAME,
    MAX_PAYLOAD,
};
use crate::wire::{
    lemma_parse_varint_canonical,
    lemma_varint_round_trip,
    parse_varint,
    push_bytes,
    read_varint,
    varint,
    varint_incomplete,
};

verus! {

/// Why a frame was not taken for sending.
#[derive(Clone, Copy, Debug, PartialEq, Eq, Structural)]
pub enum TransportError {
    /// The host is away. Nothing was queued.
    Disconnected,
    /// The frame's payload is longer than a frame may carry.
    Oversized,
}

/// What the start of the received bytes is.
#[derive(Clone, Copy, Debug, PartialEq, Eq, Structural)]
pub enum Extent {
    /// The start of a frame that has not arrived in full.
    Incomplete,
    /// A whole frame of this many bytes.
    Whole(usize),
    /// No frame and no start of one.
    Bad(CodecError),
}

/// What a poll for the next frame found.
#[derive(Clone, Debug, PartialEq, Eq)]
pub enum Poll {
    /// No whole frame has arrived yet.
    Pending,
    /// The next frame.
    Frame(Frame),
    /// The received bytes were no frame and were dropped.
    Dropped(CodecError),
}

/// The adapter. Its fields are the bytes received and not yet cut into
/// frames, the bytes queued for sending, and whether the host is there.
#[derive(Debug, PartialEq, Eq)]
pub struct Transport {
    pub inbound: Vec<u8>,
    pub outbound: Vec<u8>,
    pub connected: bool,
}

/// What the start of `s` is: a whole frame, the start of one, or neither.
pub open spec fn extent(s: Seq<u8>) -> Extent {
    if s.len() < HEADER_LEN {
        Extent::Incomplete
    } else {
        match parse_varint(s.skip(HEADER_LEN as int), LENGTH_LIMIT as nat) {
            Some((len, n)) => if len > MAX_PAYLOAD {
                Extent::Bad(CodecError::Oversized)
            } else if s.len() < HEADER_LEN + n + len {
                Extent::Incomplete
            } else {
                Extent::Whole((HEADER_LEN + n + len) as usize)
            },
            None => if varint_incomplete(s.skip(HEADER_LEN as int), LENGTH_LIMIT as nat) {
                Extent::Incomplete
            } else {
                Extent::Bad(CodecError::Malformed)
            },
        }
    }
}

/// A length reads the same from any bytes that start with the bytes it was
/// read from.
pub proof fn lemma_parse_varint_prefix(s: Seq<u8>, limit: nat, m: int)
    requires
        parse_varint(s, limit) matches Some((v, n)) && n <= m <= s.len(),
    ensures
        parse_varint(s.subrange(0, m), limit) == parse_varint(s, limit),
{
    lemma_parse_varint_canonical(s, limit);
    let (v, n) = parse_varint(s, limit)->0;
    assert(s.subrange(0, m) =~= varint(v) + s.subrange(n as int, m));
    lemma_varint_round_trip(v, s.subrange(n as int, m), limit);
}

/// The bytes of a whole frame at the start of `s` decode to a frame, and
/// encoding that frame gives those bytes back.
pub proof fn lemma_whole_decodes(s: Seq<u8>)
    requires
        extent(s) is Whole,
    ensures
        extent(s)->Whole_0 <= s.len(),
        HEADER_LEN < extent(s)->Whole_0 <= MAX_FRAME,
        spec_decode(s.subrange(0, extent(s)->Whole_0 as int)) is Ok,
        spec_encode(spec_decode(s.subrange(0, extent(s)->Whole_0 as int))->Ok_0) == s.subrange(
            0,
            extent(s)->Whole_0 as int,
        ),
{
    let total = extent(s)->Whole_0 as int;
    let t = s.skip(HEADER_LEN as int);
    let (len, n) = parse_varint(t, LENGTH_LIMIT as nat)->0;
    lemma_parse_varint_canonical(t, LENGTH_LIMIT as nat);
    crate::wire::lemma_varint_len(len);
    assert(n <= 2) by {
        if n > 2 {
            assert(t.subrange(0, n as int).len() == n);
        }
    }
    let head = s.subrange(0, total);
    assert(head.skip(HEADER_LEN as int) =~= t.subrange(0, total - HEADER_LEN));
    lemma_parse_varint_prefix(t, LENGTH_LIMIT as nat, total - HEADER_LEN);
    lemma_encode_decode(head);
}

/// Bytes that are no start of a frame stay so, whatever arrives after them.
pub proof fn lemma_bad_stays_bad(s: Seq<u8>, more: Seq<u8>)
    requires
        extent(s) is Bad,
    ensures
        extent(s + more) == extent(s),
{
    let t = s.skip(HEADER_LEN as int);
    assert((s + more).skip(HEADER_LEN as int) =~= t + more);
    match parse_varint(t, LENGTH_LIMIT as nat) {
        Some((len, n)) => {
            lemma_parse_varint_canonical(t, LENGTH_LIMIT as nat);
            assert(t + more =~= varint(len) + (t.subrange(n as int, t.len() as int) + more));
            lemma_varint_round_trip(
                len,
                t.subrange(n as int, t.len() as int) + more,
                LENGTH_LIMIT as nat,
            );
        },
        None => {
            lemma_failed_length_stays(t, more, LENGTH_LIMIT as nat);
            assert(!varint_incomplete(t + more, LENGTH_LIMIT as nat)) by {
                if t.len() < LENGTH_LIMIT {
                    let i = choose|i: int| 0 <= i < t.len() && t[i] < 128;
                    assert((t + more)[i] < 128);
                }
            }
        },
    }
}

/// A length that cannot be read, and that is not just cut short, cannot be
/// read from longer bytes either.
pub proof fn lemma_failed_length_stays(t: Seq<u8>, more: Seq<u8>, limit: nat)
    requires
        parse_varint(t, limit) is None,
        !varint_incomplete(t, limit),
    ensures
        parse_varint(t + more, limit) is None,
    decreases limit,
{
    if limit == 0 {
    } else if t.len() == 0 {
        assert(varint_incomplete(t, limit));
    } else {
        assert((t + more)[0] == t[0]);
        if t[0] >= 128 {
            assert((t + more).drop_first() =~= t.drop_first() + more);
            let rest = t.drop_first();
            match parse_varint(rest, (limit - 1) as nat) {
                Some((high, n)) => {
                    assert(high == 0);
                    lemma_parse_varint_canonical(rest, (limit - 1) as nat);
                    assert(rest + more =~= varint(high) + (rest.subrange(
                        n as int,
                        rest.len() as int,
                    ) + more));
                    lemma_varint_round_trip(
                        high,
                        rest.subrange(n as int, rest.len() as int) + more,
                        (limit - 1) as nat,
                    );
                },
                None => {
                    assert(!varint_incomplete(rest, (limit - 1) as nat)) by {
                        if varint_incomplete(rest, (limit - 1) as nat) {
                            assert forall|i: int| 0 <= i < t.len() implies t[i] >= 128 by {
                                if i > 0 {
                                    assert(t[i] == rest[i - 1]);
                                }
                            }
                        }
                    }
                    lemma_failed_length_stays(rest, more, (limit - 1) as nat);
                },
            }
        }
    }
}

/// What the start of `bytes` is.
pub fn frame_extent(bytes: &[u8]) -> (e: Extent)
    ensures
        e == extent(bytes@),
{
    if bytes.len() < HEADER_LEN {
        return Extent::Incomplete;
    }
    match read_varint(bytes, HEADER_LEN, LENGTH_LIMIT) {
        Some((len, n)) => {
            if len > MAX_PAYLOAD as u64 {
                Extent::Bad(CodecError::Oversized)
            } else if bytes.len() - HEADER_LEN - n < len as usize {
                Extent::Incomplete
            } else {
                Extent::Whole(HEADER_LEN + n + len as usize)
            }
        },
        None => {
            let ghost t = bytes@.skip(HEADER_LEN as int);
            let mut i: usize = HEADER_LEN;
            while i < bytes.len()
                invariant
                    HEADER_LEN <= i <= bytes.len(),
                    t == bytes@.skip(HEADER_LEN as int),
                    parse_varint(t, LENGTH_LIMIT as nat) is None,
                    forall|j: int| 0 <= j < i - HEADER_LEN ==> t[j] >= 128,
                decreases bytes.len() - i,
            {
                if bytes[i] < 128 {
                    proof {
                        let j = i - HEADER_LEN;
                        assert(t[j] < 128 && 0 <= j < t.len());
                        assert(!varint_incomplete(t, LENGTH_LIMIT as nat));
                    }
                    return Extent::Bad(CodecError::Malformed);
                }
                i += 1;
            }
            if bytes.len() - HEADER_LEN < LENGTH_LIMIT {
                Extent::Incomplete
            } else {
                Extent::Bad(CodecError::Malformed)
            }
        },
    }
}

impl Transport {
    /// An adapter with nothing received, nothing queued, and the host there.
    pub fn new() -> (t: Transport)
        ensures
            t.inbound@.len() == 0,
            t.outbound@.len() == 0,
            t.connected,
    {
        Transport { inbound: Vec::new(), outbound: Vec::new(), connected: true }
    }

    /// Takes in bytes that were read from the host.
    pub fn receive(&mut self, bytes: &[u8])
        ensures
            final(self).inbound@ == old(self).inbound@ + bytes@,
            final(self).outbound@ == old(self).outbound@,
            final(self).connected == old(self).connected,
    {
        push_bytes(&mut self.inbound, bytes);
    }

    /// Takes the next frame off the received bytes, if a whole one is
    /// there. While a frame is arriving, nothing changes. Bytes that are no
    /// start of a frame are all dropped, so that reading can go on with
    /// what arrives next.
    pub fn try_read_frame(&mut self) -> (p: Poll)
        ensures
            final(self).outbound@ == old(self).outbound@,
            final(self).connected == old(self).connected,
            match extent(old(self).inbound@) {
                Extent::Incomplete => p == Poll::Pending && final(self).inbound@ == old(self).inbound@,
                Extent::Bad(e) => p == Poll::Dropped(e) && final(self).inbound@.len() == 0,
                Extent::Whole(n) => {
                    &&& p matches Poll::Frame(f)
                    &&& spec_encode(f@) == old(self).inbound@.subrange(0, n as int)
                    &&& final(self).inbound@ == old(self).inbound@.skip(n as int)
                },
            },
    {
        match frame_extent(self.inbound.as_slice()) {
            Extent::Incomplete => Poll::Pending,
            Extent::Bad(e) => {
                self.inbound.clear();
                Poll::Dropped(e)
            },
            Extent::Whole(n) => {
                proof {
                    lemma_whole_decodes(self.inbound@);
                }
                let rest = self.inbound.split_off(n);
                let decoded = Frame::decode(self.inbound.as_slice());
                self.inbound = rest;
                match decoded {
                    Ok(f) => Poll::Frame(f),
                    Err(e) => Poll::Dropped(e),
                }
            },
        }
    }

    /// Queues a frame for sending. While the host is away the frame is
    /// turned down as `Disconnected` and nothing is queued.
    pub fn write_frame(&mut self, frame: &Frame) -> (r: Result<(), TransportError>)
        ensures
            final(self).inbound@ == old(self).inbound@,
            final(self).connected == old(self).connected,
            match r {
                Ok(()) => old(self).connected && frame.payload@.len() <= MAX_PAYLOAD && final(self).outbound@ == old(self).outbound@ + spec_encode(frame@),
                Err(e) => final(self).outbound@ == old(self).outbound@ && e == (if !old(self).connected {
                    TransportError::Disconnected
                } else {
                    TransportError::Oversized
                }) && (old(self).connected ==> frame.payload@.len() > MAX_PAYLOAD),
            },
    {
        if !self.connected {
            return Err(TransportError::Disconnected);
        }
        match frame.encode() {
            Ok(bytes) => {
                push_bytes(&mut self.outbound, bytes.as_slice());
                Ok(())
            },
            Err(_) => Err(TransportError::Oversized),
        }
    }

    /// Hands out the bytes queued for sending and empties the queue.
    pub fn take_outbound(&mut self) -> (bytes: Vec<u8>)
        ensures
            bytes@ == old(self).outbound@,
            final(self).outbound@.len() == 0,
            final(self).inbound@ == old(self).inbound@,
            final(self).connected == old(self).connected,
    {
        let mut bytes: Vec<u8> = Vec::new();
        bytes.append(&mut self.outbound);
        bytes
    }

    /// The host went away: what was received in part and what was queued is
    /// dropped. Frames are turned down until the host is back.
    pub fn disconnect(&mut self)
        ensures
            !final(self).connected,
            final(self).inbound@.len() == 0,
            final(self).outbound@.len() == 0,
    {
        self.connected = false;
        self.inbound.clear();
        self.outbound.clear();
    }

    /// The host is back.
    pub fn reconnect(&mut self)
        ensures
            final(self).connected,
            final(self).inbound@ == old(self).inbound@,
            final(self).outbound@ == old(self).outbound@,
    {
        self.connected = true;
    }
}

} // verus!
