//! The frame: the unit of wire data. It carries a path key, a sequence
//! number and a payload, and says itself how long it is.
//!
//! On the wire a frame is the eight bytes of the path key, the four bytes
//! of the sequence number, the payload's length as a variable-length
//! integer, and the payload.

use vstd::prelude::*;
use crate::wire::{
    le32,
    le64,
    lemma_le32_round_trip,
    lemma_le64_round_trip,
    lemma_parse_varint_canonical,
    lemma_le32_at,
    lemma_le64_at,
    lemma_varint_len,
    lemma_varint_round_trip,
    parse_varint,
    push_bytes,
    push_u32,
    push_u64,
    push_varint,
    read_u32,
    read_u64,
    read_varint,
    value32,
    value64,
    varint,
};

verus! {

/// Bytes that the path key and the sequence number take.
pub const HEADER_LEN: usize = 12;

/// Longest payload that a frame may carry.
pub const MAX_PAYLOAD: usize = 1000;

/// Most bytes that a payload's length may take on the wire.
pub const LENGTH_LIMIT: usize = 5;

/// Longest frame on the wire: header, two bytes of length, payload.
pub const MAX_FRAME: usize = 1014;

/// Why bytes were not taken as a frame or as a value.
#[derive(Clone, Copy, Debug, PartialEq, Eq, Structural)]
pub enum CodecError {
    /// The bytes are not a frame: too short, or the length they state is
    /// not the length they have.
    Malformed,
    /// The payload is not a value of the type that its path expects.
    UnknownType,
    /// The payload is longer than `MAX_PAYLOAD`.
    Oversized,
}

/// A frame.
#[derive(Clone, Debug, PartialEq, Eq)]
pub struct Frame {
    /// Which endpoint or topic the frame belongs to.
    pub path_key: u64,
    /// Number that ties a reply to its request, or counts a topic's messages.
    pub seq_no: u32,
    /// The encoded message.
    pub payload: Vec<u8>,
}

/// A frame as a mathematical value.
pub struct FrameView {
    pub path_key: u64,
    pub seq_no: u32,
    pub payload: Seq<u8>,
}

impl View for Frame {
    type V = FrameView;

    /// The frame with its payload as a sequence of bytes.
    open spec fn view(&self) -> FrameView {
        FrameView { path_key: self.path_key, seq_no: self.seq_no, payload: self.payload@ }
    }
}

/// The bytes of a frame on the wire.
pub open spec fn spec_encode(f: FrameView) -> Seq<u8> {
    le64(f.path_key) + le32(f.seq_no) + varint(f.payload.len()) + f.payload
}

/// The frame that the bytes `s` are, or why they are none. The bytes must
/// be one whole frame and nothing else.
pub open spec fn spec_decode(s: Seq<u8>) -> Result<FrameView, CodecError> {
    if s.len() < HEADER_LEN {
        Err(CodecError::Malformed)
    } else {
        match parse_varint(s.skip(HEADER_LEN as int), LENGTH_LIMIT as nat) {
            None => Err(CodecError::Malformed),
            Some((len, n)) => if len > MAX_PAYLOAD {
                Err(CodecError::Oversized)
            } else if s.len() != HEADER_LEN + n + len {
                Err(CodecError::Malformed)
            } else {
                Ok(
                    FrameView {
                        path_key: value64(s, 0),
                        seq_no: value32(s, 8),
                        payload: s.skip(HEADER_LEN + n),
                    },
                )
            },
        }
    }
}

/// Decoding what was encoded gives the frame back.
pub proof fn lemma_decode_encode(f: FrameView)
    requires
        f.payload.len() <= MAX_PAYLOAD,
    ensures
        spec_decode(spec_encode(f)) == Ok::<FrameView, CodecError>(f),
        spec_encode(f).len() <= MAX_FRAME,
{
    let s = spec_encode(f);
    let len = f.payload.len();
    let prefix = varint(len);
    lemma_le64_round_trip(f.path_key);
    lemma_le32_round_trip(f.seq_no);
    lemma_varint_len(len);
    assert(s.skip(HEADER_LEN as int) =~= prefix + f.payload);
    lemma_varint_round_trip(len, f.payload, LENGTH_LIMIT as nat);
    assert(s.skip(HEADER_LEN + prefix.len()) =~= f.payload);
    assert(s.subrange(0, 8) =~= le64(f.path_key));
    assert(s.subrange(8, 12) =~= le32(f.seq_no));
    assert(value64(s, 0) == value64(le64(f.path_key), 0)) by {
        assert forall|i: int| 0 <= i < 8 implies s[i] == le64(f.path_key)[i] by {}
    }
    assert(value32(s, 8) == value32(le32(f.seq_no), 0)) by {
        assert forall|i: int| 0 <= i < 4 implies s[8 + i] == le32(f.seq_no)[i] by {}
    }
}

/// Bytes that decode to a frame are exactly what encoding that frame gives:
/// no two byte strings stand for the same frame.
pub proof fn lemma_encode_decode(s: Seq<u8>)
    requires
        spec_decode(s) is Ok,
    ensures
        spec_encode(spec_decode(s)->Ok_0) == s,
        spec_decode(s)->Ok_0.payload.len() <= MAX_PAYLOAD,
{
    let f = spec_decode(s)->Ok_0;
    let t = s.skip(HEADER_LEN as int);
    lemma_parse_varint_canonical(t, LENGTH_LIMIT as nat);
    let (len, n) = parse_varint(t, LENGTH_LIMIT as nat)->0;
    lemma_le64_at(s, 0);
    lemma_le32_at(s, 8);
    assert(t.subrange(0, n as int) =~= s.subrange(HEADER_LEN as int, HEADER_LEN + n));
    assert(spec_encode(f) =~= s);
}

impl Frame {
    /// A frame of the three parts.
    pub fn new(path_key: u64, seq_no: u32, payload: Vec<u8>) -> (f: Frame)
        ensures
            f@ == (FrameView { path_key, seq_no, payload: payload@ }),
    {
        Frame { path_key, seq_no, payload }
    }

    /// The frame's bytes on the wire. A payload longer than `MAX_PAYLOAD`
    /// is not encoded.
    pub fn encode(&self) -> (r: Result<Vec<u8>, CodecError>)
        ensures
            match r {
                Ok(bytes) => self.payload@.len() <= MAX_PAYLOAD && bytes@ == spec_encode(self@)
                    && spec_decode(bytes@) == Ok::<FrameView, CodecError>(self@),
                Err(e) => self.payload@.len() > MAX_PAYLOAD && e == CodecError::Oversized,
            },
    {
        if self.payload.len() > MAX_PAYLOAD {
            return Err(CodecError::Oversized);
        }
        let mut out: Vec<u8> = Vec::new();
        push_u64(&mut out, self.path_key);
        push_u32(&mut out, self.seq_no);
        push_varint(&mut out, self.payload.len() as u64);
        push_bytes(&mut out, self.payload.as_slice());
        proof {
            assert(out@ =~= spec_encode(self@));
            lemma_decode_encode(self@);
        }
        Ok(out)
    }

    /// The frame that `bytes` are. They must be one whole frame: a length
    /// that does not match, a header cut short or a length written in a
    /// longer form than needed make them malformed.
    pub fn decode(bytes: &[u8]) -> (r: Result<Frame, CodecError>)
        ensures
            match r {
                Ok(f) => spec_decode(bytes@) == Ok::<FrameView, CodecError>(f@) && spec_encode(f@)
                    == bytes@,
                Err(e) => spec_decode(bytes@) == Err::<FrameView, CodecError>(e),
            },
    {
        if bytes.len() < HEADER_LEN {
            return Err(CodecError::Malformed);
        }
        let (len, n) = match read_varint(bytes, HEADER_LEN, LENGTH_LIMIT) {
            None => {
                return Err(CodecError::Malformed);
            },
            Some(parsed) => parsed,
        };
        if len > MAX_PAYLOAD as u64 {
            return Err(CodecError::Oversized);
        }
        let start: usize = HEADER_LEN + n;
        if bytes.len() - start != len as usize {
            return Err(CodecError::Malformed);
        }
        let path_key: u64 = read_u64(bytes, 0);
        let seq_no: u32 = read_u32(bytes, 8);
        let mut payload: Vec<u8> = Vec::new();
        let mut i: usize = start;
        while i < bytes.len()
            invariant
                start <= i <= bytes.len(),
                payload@ == bytes@.subrange(start as int, i as int),
            decreases bytes.len() - i,
        {
            payload.push(bytes[i]);
            i += 1;
            assert(payload@ =~= bytes@.subrange(start as int, i as int));
        }
        let f = Frame { path_key, seq_no, payload };
        proof {
            assert(bytes@.subrange(start as int, bytes.len() as int) =~= bytes@.skip(start as int));
            lemma_encode_decode(bytes@);
        }
        Ok(f)
    }
}

} // verus!
