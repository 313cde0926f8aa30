//! The log stream: a task that, while it is on, publishes the device's
//! pending log bytes in chunks, one chunk per tick, and that stops at the
//! first tick after it was told to.

use vstd::prelude::*;
use crate::wire::push_bytes;

verus! {

/// Most log bytes that one chunk carries.
pub const CHUNK_LEN: usize = 32;

/// Bytes that a chunk takes on the wire: the count, then the padded bytes.
pub const CHUNK_WIRE_LEN: usize = 33;

/// One published piece of the log: `len` bytes of data at the start of
/// `bytes`, padding after them.
#[derive(Clone, Copy, Debug, PartialEq, Eq)]
pub struct LogChunk {
    pub len: u8,
    pub bytes: [u8; 32],
}

/// The state of the log stream.
#[derive(Clone, Copy, Debug, PartialEq, Eq, Structural)]
pub struct LogStream {
    /// Whether the task is running.
    pub active: bool,
    /// Whether the running task was told to stop.
    pub stop_requested: bool,
    /// Sequence number of the next chunk.
    pub next_seq: u32,
}

/// What the log task did at a tick.
#[derive(Clone, Copy, Debug, PartialEq, Eq)]
pub enum LogStep {
    /// No task is running.
    Idle,
    /// The task was told to stop and has ended.
    Stopped,
    /// The task runs, and there is nothing to publish.
    Waiting,
    /// The task publishes `chunk` under sequence number `seq_no`. The
    /// chunk's data are taken off the pending bytes.
    Publish { seq_no: u32, chunk: LogChunk },
}

/// The smaller of the chunk length and `available`.
pub open spec fn chunk_size(available: int) -> int {
    if available < CHUNK_LEN {
        available
    } else {
        CHUNK_LEN as int
    }
}

impl LogChunk {
    /// Whether the count is one that a chunk can hold.
    pub open spec fn valid(self) -> bool {
        self.len <= CHUNK_LEN
    }

    /// The data that the chunk carries.
    pub open spec fn spec_data(self) -> Seq<u8> {
        self.bytes@.subrange(0, self.len as int)
    }

    /// The chunk's payload.
    pub open spec fn wire(self) -> Seq<u8> {
        seq![self.len] + self.bytes@
    }

    /// The chunk that carries the first bytes of `pending`, as many as fit,
    /// padded with zeros.
    pub fn take(pending: &[u8]) -> (chunk: LogChunk)
        ensures
            chunk.len == chunk_size(pending@.len() as int),
            chunk.spec_data() == pending@.subrange(0, chunk.len as int),
            forall|i: int| chunk.len <= i < CHUNK_LEN ==> chunk.bytes@[i] == 0,
    {
        let n: usize = if pending.len() < CHUNK_LEN {
            pending.len()
        } else {
            CHUNK_LEN
        };
        let mut bytes: [u8; 32] = [0u8; 32];
        let mut i: usize = 0;
        while i < n
            invariant
                i <= n <= CHUNK_LEN,
                n <= pending.len(),
                forall|j: int| 0 <= j < i ==> bytes@[j] == pending@[j],
                forall|j: int| i <= j < CHUNK_LEN ==> bytes@[j] == 0,
            decreases n - i,
        {
            bytes[i] = pending[i];
            i += 1;
        }
        let chunk = LogChunk { len: n as u8, bytes };
        assert(chunk.spec_data() =~= pending@.subrange(0, n as int));
        chunk
    }

    /// The data that the chunk carries, or nothing if the count is more
    /// than a chunk can hold.
    pub fn data(&self) -> (r: Option<Vec<u8>>)
        ensures
            match r {
                Some(data) => self.valid() && data@ == self.spec_data(),
                None => !self.valid(),
            },
    {
        let n: usize = self.len as usize;
        if n > CHUNK_LEN {
            return None;
        }
        let mut data: Vec<u8> = Vec::new();
        let mut i: usize = 0;
        while i < n
            invariant
                i <= n <= CHUNK_LEN,
                data@ == self.bytes@.subrange(0, i as int),
            decreases n - i,
        {
            data.push(self.bytes[i]);
            i += 1;
            assert(data@ =~= self.bytes@.subrange(0, i as int));
        }
        Some(data)
    }

    /// The chunk's payload.
    pub fn encode(&self) -> (out: Vec<u8>)
        ensures
            out@ == self.wire(),
    {
        let mut out: Vec<u8> = Vec::new();
        out.push(self.len);
        push_bytes(&mut out, self.bytes.as_slice());
        assert(out@ =~= self.wire());
        out
    }

    /// The chunk that `payload` is, if it is one: thirty-three bytes.
    pub fn decode(payload: &[u8]) -> (r: Option<LogChunk>)
        ensures
            match r {
                Some(chunk) => chunk.wire() == payload@,
                None => payload@.len() != CHUNK_WIRE_LEN,
            },
    {
        if payload.len() != CHUNK_WIRE_LEN {
            return None;
        }
        let mut bytes: [u8; 32] = [0u8; 32];
        let mut i: usize = 0;
        while i < CHUNK_LEN
            invariant
                i <= CHUNK_LEN,
                payload.len() == CHUNK_WIRE_LEN,
                forall|j: int| 0 <= j < i ==> bytes@[j] == payload@[j + 1],
            decreases CHUNK_LEN - i,
        {
            bytes[i] = payload[i + 1];
            i += 1;
        }
        let chunk = LogChunk { len: payload[0], bytes };
        assert(chunk.wire() =~= payload@);
        Some(chunk)
    }
}

impl LogStream {
    /// The state at boot: no task running, the next chunk is the first.
    pub open spec fn at_boot() -> LogStream {
        LogStream { active: false, stop_requested: false, next_seq: 0 }
    }

    /// The state at boot.
    pub fn new() -> (s: LogStream)
        ensures
            s == Self::at_boot(),
    {
        LogStream { active: false, stop_requested: false, next_seq: 0 }
    }

    /// Switches the stream on. A stream that is on already stays as it is,
    /// also where it was told to stop.
    pub fn start(&mut self)
        ensures
            old(self).active ==> *final(self) == *old(self),
            !old(self).active ==> *final(self) == (LogStream {
                active: true,
                stop_requested: false,
                ..*old(self)
            }),
    {
        if !self.active {
            self.active = true;
            self.stop_requested = false;
        }
    }

    /// Tells a running stream to stop at its next tick. Returns whether a
    /// stream was running; where none was, nothing changes.
    pub fn stop(&mut self) -> (was_active: bool)
        ensures
            was_active == old(self).active,
            !was_active ==> *final(self) == *old(self),
            was_active ==> *final(self) == (LogStream { stop_requested: true, ..*old(self) }),
    {
        if self.active {
            self.stop_requested = true;
            true
        } else {
            false
        }
    }

    /// The state after a tick at which `available` log bytes were pending.
    pub open spec fn spec_tick(self, available: int) -> LogStream {
        if !self.active {
            self
        } else if self.stop_requested {
            LogStream { active: false, stop_requested: false, ..self }
        } else if available == 0 {
            self
        } else {
            LogStream {
                next_seq: if self.next_seq == u32::MAX {
                    0
                } else {
                    (self.next_seq + 1) as u32
                },
                ..self
            }
        }
    }

    /// One tick of the log task, with the device's pending log bytes. A
    /// task that was told to stop ends here and publishes nothing more. A
    /// running task publishes the first pending bytes, as many as fit a
    /// chunk, under the next sequence number.
    pub fn tick(&mut self, pending: &[u8]) -> (step: LogStep)
        ensures
            *final(self) == old(self).spec_tick(pending@.len() as int),
            !old(self).active ==> step == LogStep::Idle,
            old(self).active && old(self).stop_requested ==> step == LogStep::Stopped,
            old(self).active && !old(self).stop_requested && pending@.len() == 0 ==> step
                == LogStep::Waiting,
            old(self).active && !old(self).stop_requested && pending@.len() > 0 ==> {
                &&& step matches LogStep::Publish { seq_no, chunk }
                &&& seq_no == old(self).next_seq
                &&& chunk.len == chunk_size(pending@.len() as int)
                &&& chunk.spec_data() == pending@.subrange(0, chunk.len as int)
                &&& forall|i: int| chunk.len <= i < CHUNK_LEN ==> chunk.bytes@[i] == 0
            },
    {
        if !self.active {
            LogStep::Idle
        } else if self.stop_requested {
            self.active = false;
            self.stop_requested = false;
            LogStep::Stopped
        } else if pending.len() == 0 {
            LogStep::Waiting
        } else {
            let seq_no: u32 = self.next_seq;
            self.next_seq = seq_no.wrapping_add(1);
            LogStep::Publish { seq_no, chunk: LogChunk::take(pending) }
        }
    }
}

/// A stop request finds no stream running exactly if it changes nothing;
/// one that finds a stream running ends it at the very next tick,
/// whatever is pending then.
pub proof fn lemma_stop_ends_stream_within_one_tick(s: LogStream, available: int)
    requires
        s.active,
    ensures
        (LogStream { stop_requested: true, ..s }).spec_tick(available).active == false,
        (LogStream { stop_requested: true, ..s }).spec_tick(available).next_seq == s.next_seq,
{
}

} // verus!
