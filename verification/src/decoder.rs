//! The host's rules for reading the board's log: what to do with each
//! result of decoding, and when the places that log lines come from can be
//! shown.
//!
//! Decoding itself is the caller's part, and so is printing.

use vstd::prelude::*;

verus! {

/// What an attempt to decode the next log frame gave.
#[derive(Clone, Copy, Debug, PartialEq, Eq, Structural)]
pub enum DecodeOutcome {
    /// A log frame.
    Frame,
    /// The bytes received so far end inside a frame.
    UnexpectedEof,
    /// The bytes are no frame.
    Malformed,
}

/// What to do after an attempt to decode.
#[derive(Clone, Copy, Debug, PartialEq, Eq, Structural)]
pub enum DecoderStep {
    /// Hand the frame to the logger, then decode on.
    Forward,
    /// Wait for more bytes from the board.
    AwaitData,
    /// Warn of the skipped frame, then decode on.
    SkipAndWarn,
    /// Give up: the stream cannot be picked up again.
    Fail,
}

/// What to do after an attempt to decode: a frame is forwarded, a frame
/// cut short waits for more bytes, and a malformed frame is skipped where
/// the encoding can find the next frame again, and ends decoding where it
/// cannot.
pub open spec fn spec_decoder_step(outcome: DecodeOutcome, can_recover: bool) -> DecoderStep {
    match outcome {
        DecodeOutcome::Frame => DecoderStep::Forward,
        DecodeOutcome::UnexpectedEof => DecoderStep::AwaitData,
        DecodeOutcome::Malformed => if can_recover {
            DecoderStep::SkipAndWarn
        } else {
            DecoderStep::Fail
        },
    }
}

/// What to do after an attempt to decode. `can_recover` says whether the
/// stream's encoding can find the next frame after a malformed one.
pub fn decoder_step(outcome: DecodeOutcome, can_recover: bool) -> (step: DecoderStep)
    ensures
        step == spec_decoder_step(outcome, can_recover),
{
    match outcome {
        DecodeOutcome::Frame => DecoderStep::Forward,
        DecodeOutcome::UnexpectedEof => DecoderStep::AwaitData,
        DecodeOutcome::Malformed => {
            if can_recover {
                DecoderStep::SkipAndWarn
            } else {
                DecoderStep::Fail
            }
        },
    }
}

/// Whether a chunk of log bytes ends the stream: an empty one does.
pub fn ends_stream(data: &[u8]) -> (ends: bool)
    ensures
        ends == (data@.len() == 0),
{
    data.len() == 0
}

/// Whether every log line has a place: each index of the table is among
/// the indices that a place is known for. Only then are places shown.
pub fn locations_complete(indices: &[u64], located: &[u64]) -> (complete: bool)
    ensures
        complete == forall|i: int| 0 <= i < indices@.len() ==> located@.contains(#[trigger] indices@[i]),
{
    let mut i: usize = 0;
    while i < indices.len()
        invariant
            i <= indices.len(),
            forall|k: int| 0 <= k < i ==> located@.contains(#[trigger] indices@[k]),
        decreases indices.len() - i,
    {
        let wanted: u64 = indices[i];
        let mut j: usize = 0;
        let mut found: bool = false;
        while j < located.len() && !found
            invariant
                j <= located.len(),
                found ==> located@.contains(wanted),
                !found ==> forall|k: int| 0 <= k < j ==> located@[k] != wanted,
            decreases located.len() - j + (if found { 0int } else { 1int }),
        {
            if located[j] == wanted {
                found = true;
            } else {
                j += 1;
            }
        }
        if !found {
            assert(!located@.contains(indices@[i as int]));
            return false;
        }
        i += 1;
    }
    true
}

} // verus!
