//! Append-only audio sample store for one capture session.
//!
//! Samples are mono 32-bit float PCM at 16 kHz, held as their IEEE-754 bit
//! patterns so the buffer, the windower and the WAV staging codec move them
//! without interpreting them; whoever produces or consumes real float
//! samples converts at the boundary, bit for bit.

use vstd::prelude::*;

verus! {

/// Samples per second of captured audio.
pub const SAMPLE_RATE: usize = 16000;

/// The capture session's sample store. Within a session it only grows:
/// a sample's index never changes once it is appended.
pub struct AudioBuffer {
    samples: Vec<u32>,
}

impl View for AudioBuffer {
    type V = Seq<u32>;

    closed spec fn view(&self) -> Seq<u32> {
        self.samples@
    }
}

impl AudioBuffer {
    /// An empty buffer.
    pub fn new() -> (b: Self)
        ensures
            b@ == Seq::<u32>::empty(),
    {
        AudioBuffer { samples: Vec::new() }
    }

    /// Drops all samples, for the start of the next session.
    pub fn clear(&mut self)
        ensures
            final(self)@ == Seq::<u32>::empty(),
    {
        self.samples.clear();
    }

    /// The number of samples captured so far.
    pub fn len(&self) -> (r: usize)
        ensures
            r == self@.len(),
    {
        self.samples.len()
    }

    /// Appends a block of samples delivered by the capture stream, but
    /// only while the session is listening: blocks that race past the end
    /// of a session are dropped, never stored.
    pub fn accept_block(&mut self, listening: bool, block: &[u32])
        ensures
            listening ==> final(self)@ == old(self)@ + block@,
            !listening ==> final(self)@ == old(self)@,
    {
        if listening {
            self.samples.extend_from_slice(block);
        }
    }

    /// Copies out the samples in `[start, end)`, oldest first.
    pub fn extract(&self, start: usize, end: usize) -> (r: Vec<u32>)
        requires
            start <= end <= self@.len(),
        ensures
            r@ == self@.subrange(start as int, end as int),
    {
        let mut out: Vec<u32> = Vec::new();
        let mut i: usize = start;
        while i < end
            invariant
                start <= i <= end <= self@.len(),
                out@ == self@.subrange(start as int, i as int),
            decreases end - i,
        {
            out.push(self.samples[i]);
            i = i + 1;
            assert(out@ =~= self@.subrange(start as int, i as int));
        }
        out
    }
}

} // verus!
