//! Chunking of the audio buffer for transcription.
//!
//! In streaming mode the windower walks the buffer in fixed-size chunks:
//! chunk `k` covers exactly the sample range `[k * chunk, (k + 1) * chunk)`,
//! so successive chunks are strictly increasing, non-overlapping and
//! gapless. A trailing remainder shorter than one chunk is never emitted.
//! In batch mode the whole buffer is one chunk, and an empty buffer is
//! refused with `NoAudioCaptured`.

use vstd::arithmetic::div_mod::{lemma_fundamental_div_mod, lemma_fundamental_div_mod_converse};
use vstd::arithmetic::mul::lemma_mul_is_distributive_add;
use vstd::prelude::*;

use crate::buffer::SAMPLE_RATE;
use crate::errors::DictationError;

verus! {

/// Duration of one streaming chunk, in seconds.
pub const CHUNK_SECONDS: usize = 2;

/// Samples per streaming chunk: two seconds of audio at the fixed rate.
pub const CHUNK_SAMPLES: usize = CHUNK_SECONDS * SAMPLE_RATE;

/// First sample index of chunk `k` when chunks hold `c` samples.
pub open spec fn chunk_start(k: int, c: int) -> int {
    k * c
}

/// One past the last sample index of chunk `k`.
pub open spec fn chunk_end(k: int, c: int) -> int {
    (k + 1) * c
}

/// Chunk ranges tile the buffer: every chunk is non-empty, starts exactly
/// where its predecessor ended, and starts strictly after its predecessor —
/// so the emitted offsets are strictly increasing, non-overlapping and
/// gapless.
pub proof fn lemma_chunks_tile(k: int, c: int)
    requires
        c >= 1,
        k >= 1,
    ensures
        chunk_start(k, c) == chunk_end(k - 1, c),
        chunk_start(k - 1, c) < chunk_start(k, c),
        chunk_start(k, c) < chunk_end(k, c),
{
    lemma_mul_is_distributive_add(c, k - 1, 1);
    lemma_mul_is_distributive_add(c, k, 1);
}

/// Streaming-mode windower: remembers how far the buffer has been
/// consumed and emits the next chunk range once enough new samples exist.
pub struct Windower {
    chunk_samples: usize,
    next_start: usize,
}

impl Windower {
    /// Samples per chunk.
    pub closed spec fn spec_chunk_samples(&self) -> int {
        self.chunk_samples as int
    }

    /// Index of the first sample the next chunk would cover; everything
    /// before it has been handed out already.
    pub closed spec fn spec_next_start(&self) -> int {
        self.next_start as int
    }

    /// How many chunks have been emitted.
    pub open spec fn chunks_done(&self) -> int {
        self.spec_next_start() / self.spec_chunk_samples()
    }

    /// The windower only ever stands on a chunk boundary.
    pub open spec fn wf(&self) -> bool {
        &&& self.spec_chunk_samples() >= 1
        &&& self.spec_next_start() % self.spec_chunk_samples() == 0
    }

    /// A windower at the start of the buffer.
    pub fn new(chunk_samples: usize) -> (w: Self)
        requires
            chunk_samples >= 1,
        ensures
            w.wf(),
            w.spec_chunk_samples() == chunk_samples,
            w.spec_next_start() == 0,
    {
        proof {
            lemma_fundamental_div_mod_converse(0, chunk_samples as int, 0, 0);
        }
        Windower { chunk_samples, next_start: 0 }
    }

    /// Samples per chunk.
    pub fn chunk_samples(&self) -> (r: usize)
        ensures
            r == self.spec_chunk_samples(),
    {
        self.chunk_samples
    }

    /// Index of the first sample not yet handed out.
    pub fn next_start(&self) -> (r: usize)
        ensures
            r == self.spec_next_start(),
    {
        self.next_start
    }

    /// Emits the next chunk range if the buffer holds a full chunk of new
    /// samples: exactly the range of chunk number `chunks_done()`, after
    /// which the windower stands at its end. Anything shorter than a full
    /// chunk stays unconsumed.
    pub fn next_chunk(&mut self, buffer_len: usize) -> (r: Option<(usize, usize)>)
        requires
            old(self).wf(),
        ensures
            final(self).wf(),
            final(self).spec_chunk_samples() == old(self).spec_chunk_samples(),
            r is Some <==> old(self).spec_next_start() + old(self).spec_chunk_samples()
                <= buffer_len,
            (r matches Some((s, e)) ==> {
                &&& s == chunk_start(old(self).chunks_done(), old(self).spec_chunk_samples())
                &&& e == chunk_end(old(self).chunks_done(), old(self).spec_chunk_samples())
                &&& s == old(self).spec_next_start()
                &&& e == s + old(self).spec_chunk_samples()
                &&& e <= buffer_len
                &&& final(self).spec_next_start() == e
                &&& final(self).chunks_done() == old(self).chunks_done() + 1
            }),
            r is None ==> *final(self) == *old(self),
    {
        let c = self.chunk_samples;
        if buffer_len >= c && self.next_start <= buffer_len - c {
            let start = self.next_start;
            let end = start + c;
            proof {
                let ns = self.next_start as int;
                let ci = c as int;
                let k = ns / ci;
                lemma_fundamental_div_mod(ns, ci);
                assert(ns == k * ci);
                lemma_mul_is_distributive_add(ci, k, 1);
                assert((k + 1) * ci == k * ci + ci);
                lemma_fundamental_div_mod_converse(ns + ci, ci, k + 1, 0);
            }
            self.next_start = end;
            Some((start, end))
        } else {
            None
        }
    }
}

/// Batch mode: the whole buffer is one chunk, and stopping with an empty
/// buffer fails with `NoAudioCaptured` — nothing downstream (transcription,
/// injection) gets invoked for such a session.
pub fn batch_range(buffer_len: usize) -> (r: Result<(usize, usize), DictationError>)
    ensures
        buffer_len > 0 <==> (r matches Ok((s, e)) && s == 0 && e == buffer_len),
        buffer_len == 0 <==> r == Err::<(usize, usize), _>(DictationError::NoAudioCaptured),
{
    if buffer_len == 0 {
        Err(DictationError::NoAudioCaptured)
    } else {
        Ok((0, buffer_len))
    }
}

} // verus!
