//! The capture buffer: an append-only accumulator of raw sample bytes.
//!
//! The capture callback is the sole writer (one `append` per delivered
//! block) and the finalize step is the sole reader (`drain`, which
//! consumes the buffer, so the read happens at most once and no capture
//! can follow it). Any cross-thread sharing wraps the buffer in a lock
//! outside this library; under such a lock each `append` runs in a
//! critical section of its own, so block contents never interleave.

use vstd::prelude::*;
use crate::sample::SampleBlock;

verus! {

/// Accumulates the raw bytes of every appended block, in arrival order.
///
/// Alongside the bytes it records, in ghost state, the byte run of each
/// individual block, so the no-reordering / no-loss guarantee can be
/// stated: the buffer's bytes are always exactly the concatenation of
/// the appended blocks' encodings, in append order.
pub struct CaptureBuffer {
    data: Vec<u8>,
    blocks: Ghost<Seq<Seq<u8>>>,
}

impl View for CaptureBuffer {
    type V = Seq<u8>;

    closed spec fn view(&self) -> Seq<u8> {
        self.data@
    }
}

impl CaptureBuffer {
    /// The buffer's bytes are the flattened block log.
    #[verifier::type_invariant]
    spec fn wf(self) -> bool {
        self.data@ == self.blocks@.flatten()
    }

    /// The byte run of each appended block, in arrival order.
    pub closed spec fn block_log(self) -> Seq<Seq<u8>> {
        self.blocks@
    }

    /// An empty buffer: no bytes, no blocks.
    pub fn new() -> (r: CaptureBuffer)
        ensures
            r@ == Seq::<u8>::empty(),
            r.block_log() == Seq::<Seq<u8>>::empty(),
    {
        CaptureBuffer { data: Vec::new(), blocks: Ghost(Seq::empty()) }
    }

    /// Number of bytes accumulated so far.
    pub fn byte_len(&self) -> (r: usize)
        ensures
            r == self@.len(),
    {
        self.data.len()
    }

    /// Appends one block: the buffer's bytes grow by exactly the
    /// block's serialization, at the end, and the block log records the
    /// block as the latest arrival. Nothing already stored moves.
    pub fn append(&mut self, block: &SampleBlock)
        ensures
            final(self)@ == old(self)@ + block.bytes_spec(),
            final(self).block_log() == old(self).block_log().push(block.bytes_spec()),
    {
        proof {
            use_type_invariant(&*self);
        }
        let mut tmp = CaptureBuffer { data: Vec::new(), blocks: Ghost(Seq::empty()) };
        core::mem::swap(self, &mut tmp);
        let CaptureBuffer { data: mut data, blocks } = tmp;
        let mut bytes = block.to_bytes();
        data.append(&mut bytes);
        proof {
            blocks@.lemma_flatten_push(block.bytes_spec());
        }
        *self = CaptureBuffer { data, blocks: Ghost(blocks@.push(block.bytes_spec())) };
    }

    /// Drains the buffer for finalization, yielding every accumulated
    /// byte in arrival order. Consumes the buffer: a session is drained
    /// at most once, and no append can follow the drain.
    pub fn drain(self) -> (r: Vec<u8>)
        ensures
            r@ == self@,
            r@ == self.block_log().flatten(),
    {
        proof {
            use_type_invariant(&self);
        }
        let CaptureBuffer { data, blocks } = self;
        data
    }
}

/// Appending blocks never disturbs bytes already buffered: after two
/// further arrivals `b1` then `b2`, each block's bytes sit contiguously
/// after the prior contents, in arrival order.
pub proof fn lemma_append_preserves_order(prior: Seq<u8>, b1: Seq<u8>, b2: Seq<u8>)
    ensures
        (prior + b1 + b2).len() == prior.len() + b1.len() + b2.len(),
        forall|i: int| 0 <= i < prior.len() ==> (prior + b1 + b2)[i] == prior[i],
        forall|i: int|
            0 <= i < b1.len() ==> (prior + b1 + b2)[prior.len() + i] == b1[i],
        forall|i: int|
            0 <= i < b2.len() ==> (prior + b1 + b2)[prior.len() + b1.len() + i] == b2[i],
{
}

} // verus!
