//! The host's side of one exchange: the frame that carries a request, and
//! what a frame that comes back means to the request that waits.

use vstd::prelude::*;
use vstd::string::StringSliceAdditionalSpecFns;
use crate::dispatch::{fnv1a, path_key, Endpoint};
use crate::frame::{CodecError, Frame, FrameView};
use crate::log::LogChunk;
use crate::message::{Request, Response, WireError};
use crate::server::{ERROR_KEY, LOG_KEY};

verus! {

/// What a received frame means to a request that waits for its answer.
#[derive(Clone, Copy, Debug, PartialEq, Eq)]
pub enum Incoming {
    /// The response to the request.
    Response(Response),
    /// An error in place of the response.
    Refused(WireError),
    /// A chunk of the log stream; the request keeps waiting.
    Log { seq_no: u32, chunk: LogChunk },
    /// A frame for someone else; the request keeps waiting.
    Unrelated,
    /// A frame for the request whose payload could not be read.
    Garbled(CodecError),
}

/// The key of an endpoint's path.
pub open spec fn endpoint_key(endpoint: Endpoint) -> u64 {
    fnv1a(endpoint.spec_path().spec_bytes())
}

/// The frame that carries `request` under sequence number `seq_no`.
pub fn request_frame(request: &Request, seq_no: u32) -> (f: Frame)
    ensures
        f@ == (FrameView {
            path_key: endpoint_key(request.spec_endpoint()),
            seq_no,
            payload: request.wire(),
        }),
{
    Frame::new(path_key(request.endpoint().path()), seq_no, request.encode())
}

/// What `frame` means to the request to `endpoint` that was sent under
/// `seq_no`. Log chunks are told by their key, whatever their number. A
/// frame under another number is for someone else. Under the request's
/// number, the error key brings an error and the endpoint's key the
/// response; any other key is for someone else.
pub fn classify(frame: &Frame, endpoint: Endpoint, seq_no: u32) -> (r: Incoming)
    ensures
        frame.path_key == LOG_KEY ==> match r {
            Incoming::Log { seq_no: n, chunk } => n == frame.seq_no && chunk.wire()
                == frame.payload@,
            Incoming::Garbled(e) => e == CodecError::UnknownType && frame.payload@.len() != 33,
            _ => false,
        },
        frame.path_key != LOG_KEY && frame.seq_no != seq_no ==> r == Incoming::Unrelated,
        frame.path_key == ERROR_KEY && frame.seq_no == seq_no ==> match r {
            Incoming::Refused(error) => error.wire() == frame.payload@,
            Incoming::Garbled(e) => e == CodecError::UnknownType && forall|q: WireError|
                q.wire() != frame.payload@,
            _ => false,
        },
        frame.path_key != LOG_KEY && frame.path_key != ERROR_KEY && frame.seq_no == seq_no
            && frame.path_key == endpoint_key(endpoint) ==> match r {
            Incoming::Response(response) => response.answers(endpoint) && response.wire()
                == frame.payload@,
            Incoming::Garbled(e) => e == CodecError::UnknownType && forall|q: Response|
                q.answers(endpoint) ==> q.wire() != frame.payload@,
            _ => false,
        },
        frame.path_key != LOG_KEY && frame.path_key != ERROR_KEY && frame.path_key != endpoint_key(
            endpoint,
        ) ==> r == Incoming::Unrelated,
{
    if frame.path_key == LOG_KEY {
        return match LogChunk::decode(frame.payload.as_slice()) {
            Some(chunk) => Incoming::Log { seq_no: frame.seq_no, chunk },
            None => Incoming::Garbled(CodecError::UnknownType),
        };
    }
    if frame.seq_no != seq_no {
        return Incoming::Unrelated;
    }
    if frame.path_key == ERROR_KEY {
        return match WireError::decode(frame.payload.as_slice()) {
            Ok(error) => Incoming::Refused(error),
            Err(e) => Incoming::Garbled(e),
        };
    }
    if frame.path_key != path_key(endpoint.path()) {
        return Incoming::Unrelated;
    }
    match Response::decode(endpoint, frame.payload.as_slice()) {
        Ok(response) => Incoming::Response(response),
        Err(e) => Incoming::Garbled(e),
    }
}

} // verus!
