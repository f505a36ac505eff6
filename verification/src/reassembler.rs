//! Reassembly of a payload that arrives in arbitrary chunks.
//!
//! The transport delivers bytes, not messages: one payload may arrive
//! in many reads, and a read may carry bytes of the next frame. The
//! reassembler accumulates exactly the declared number of bytes,
//! consuming from each chunk no more than it still needs; what it
//! leaves in a chunk belongs to the next frame's header and must be
//! kept by the caller.

use vstd::prelude::*;

verus! {

/// Accumulates exactly `target` payload bytes out of arbitrary chunks.
#[derive(Debug)]
pub struct FrameReassembler {
    /// The declared payload length.
    pub target: usize,
    /// The bytes collected so far; never more than `target`.
    pub collected: Vec<u8>,
}

impl FrameReassembler {
    /// The collection never holds more than the declared length.
    pub open spec fn wf(&self) -> bool {
        self.collected@.len() <= self.target
    }

    /// How many bytes are still missing.
    pub open spec fn spec_remaining(&self) -> int {
        self.target - self.collected@.len()
    }

    /// Start collecting a payload of `length` bytes.
    pub fn new(length: usize) -> (r: FrameReassembler)
        ensures
            r.wf(),
            r.target == length,
            r.collected@ == Seq::<u8>::empty(),
    {
        FrameReassembler { target: length, collected: Vec::new() }
    }

    pub fn remaining(&self) -> (r: usize)
        requires
            self.wf(),
        ensures
            r == self.spec_remaining(),
    {
        self.target - self.collected.len()
    }

    pub fn is_complete(&self) -> (r: bool)
        requires
            self.wf(),
        ensures
            r == (self.collected@.len() == self.target),
    {
        self.collected.len() == self.target
    }

    /// Take from `chunk` as much as is still needed, never more.
    ///
    /// Returns how many bytes were consumed: the whole chunk, or, when
    /// the chunk overshoots, exactly the remainder — the rest of the
    /// chunk is the caller's to keep for the next frame.
    pub fn push_chunk(&mut self, chunk: &[u8]) -> (consumed: usize)
        requires
            old(self).wf(),
        ensures
            final(self).wf(),
            final(self).target == old(self).target,
            consumed == if chunk@.len() <= old(self).spec_remaining() {
                chunk@.len() as int
            } else {
                old(self).spec_remaining()
            },
            final(self).collected@ == old(self).collected@ + chunk@.subrange(0, consumed as int),
    {
        let rem: usize = self.target - self.collected.len();
        let take: usize = if chunk.len() <= rem {
            chunk.len()
        } else {
            rem
        };
        let mut i: usize = 0;
        while i < take
            invariant
                take <= chunk@.len(),
                i <= take,
                self.target == old(self).target,
                self.collected@.len() == old(self).collected@.len() + i,
                self.collected@ == old(self).collected@ + chunk@.subrange(0, i as int),
                self.collected@.len() + (take - i) <= self.target,
            decreases take - i,
        {
            self.collected.push(chunk[i]);
            proof {
                assert(self.collected@ =~= old(self).collected@ + chunk@.subrange(
                    0,
                    i + 1,
                ));
            }
            i = i + 1;
        }
        take
    }

    /// Hand the payload out once it is complete: exactly `target`
    /// bytes, whatever chunking delivered them.
    pub fn take_payload(self) -> (r: Vec<u8>)
        requires
            self.wf(),
            self.collected@.len() == self.target,
        ensures
            r@.len() == self.target,
            r@ == self.collected@,
    {
        self.collected
    }
}

} // verus!
