//! The sample accumulator that collects incoming audio and hands out one
//! FFT block at a time.

use vstd::prelude::*;

verus! {

use crate::analysis::{ACCUMULATOR_SIZE, FFT_SIZE};

/// A buffer of `ACCUMULATOR_SIZE` samples with a write position `top`.
///
/// Incoming samples are written at `top`; once `top` has reached a full
/// FFT block, the first `FFT_SIZE` samples are handed out and the second
/// half of the buffer is moved to the front.
pub struct SampleAccumulator<T> {
    samples: Vec<T>,
    top: usize,
}

impl<T: Copy> SampleAccumulator<T> {
    /// The buffer holds exactly `ACCUMULATOR_SIZE` samples and the write
    /// position lies within it.
    pub closed spec fn well_formed(self) -> bool {
        &&& self.samples@.len() == ACCUMULATOR_SIZE
        &&& self.top <= ACCUMULATOR_SIZE
    }

    /// The samples held, in buffer order.
    pub closed spec fn contents(self) -> Seq<T> {
        self.samples@
    }

    /// The write position.
    pub closed spec fn write_pos(self) -> nat {
        self.top as nat
    }

    /// A well-formed accumulator holds exactly `ACCUMULATOR_SIZE` samples
    /// and its write position lies within them.
    pub proof fn lemma_well_formed(acc: Self)
        requires
            acc.well_formed(),
        ensures
            acc.contents().len() == ACCUMULATOR_SIZE,
            acc.write_pos() <= ACCUMULATOR_SIZE,
    {
    }

    /// One step of the capture callback never overruns the buffer: from any
    /// well-formed accumulator, taking the ready block (`take_ready_block`)
    /// leaves the write position at most one block in, so storing any input
    /// of at most `FFT_SIZE` samples (`store_input`) is admitted, and the
    /// write position, which storing leaves as it is, stays at most one
    /// block in for the next step.
    pub proof fn lemma_frame_step_fits(before: Self, taken: Self, input_len: nat)
        requires
            before.well_formed(),
            taken.well_formed(),
            before.write_pos() >= FFT_SIZE ==> taken.write_pos() == before.write_pos() - FFT_SIZE,
            before.write_pos() < FFT_SIZE ==> taken.write_pos() == before.write_pos(),
            input_len <= FFT_SIZE,
        ensures
            taken.write_pos() + input_len <= ACCUMULATOR_SIZE,
            taken.write_pos() <= FFT_SIZE,
    {
    }

    /// An accumulator filled with `silence`, writing at the start.
    pub fn new(silence: T) -> (acc: Self)
        ensures
            acc.contents() == Seq::new(ACCUMULATOR_SIZE as nat, |_i: int| silence),
            acc.write_pos() == 0,
            acc.well_formed(),
    {
        let mut samples: Vec<T> = Vec::new();
        let mut i: usize = 0;
        while i < ACCUMULATOR_SIZE
            invariant
                i <= ACCUMULATOR_SIZE,
                samples@ == Seq::new(i as nat, |_i: int| silence),
            decreases ACCUMULATOR_SIZE - i,
        {
            samples.push(silence);
            i = i + 1;
        }
        SampleAccumulator { samples, top: 0 }
    }

    /// The write position.
    pub fn top(&self) -> (top: usize)
        requires
            self.well_formed(),
        ensures
            top == self.write_pos(),
            top <= ACCUMULATOR_SIZE,
    {
        self.top
    }

    /// When a full block has been written (`top >= FFT_SIZE`), returns the
    /// first `FFT_SIZE` samples, moves the second half of the buffer to the
    /// front (the second half itself stays as it was) and moves the write
    /// position back by one block. Otherwise returns `None` and changes
    /// nothing.
    pub fn take_ready_block(&mut self) -> (block: Option<Vec<T>>)
        requires
            old(self).well_formed(),
        ensures
            final(self).well_formed(),
            final(self).write_pos() + FFT_SIZE <= ACCUMULATOR_SIZE,
            old(self).write_pos() >= FFT_SIZE ==> {
                &&& block matches Some(b) && b@ == old(self).contents().subrange(0, FFT_SIZE as int)
                &&& final(self).contents() == old(self).contents().subrange(
                    FFT_SIZE as int,
                    ACCUMULATOR_SIZE as int,
                ) + old(self).contents().subrange(FFT_SIZE as int, ACCUMULATOR_SIZE as int)
                &&& final(self).write_pos() == old(self).write_pos() - FFT_SIZE
            },
            old(self).write_pos() < FFT_SIZE ==> {
                &&& block is None
                &&& final(self).contents() == old(self).contents()
                &&& final(self).write_pos() == old(self).write_pos()
            },
    {
        if self.top < FFT_SIZE {
            return None;
        }
        let ghost before = self.samples@;
        let mut block: Vec<T> = Vec::new();
        let mut i: usize = 0;
        while i < FFT_SIZE
            invariant
                i <= FFT_SIZE,
                self.samples@ == before,
                before.len() == ACCUMULATOR_SIZE,
                FFT_SIZE <= self.top <= ACCUMULATOR_SIZE,
                self.top == old(self).top,
                before == old(self).samples@,
                block@ == before.subrange(0, i as int),
            decreases FFT_SIZE - i,
        {
            block.push(self.samples[i]);
            i = i + 1;
        }
        let mut j: usize = 0;
        while j < FFT_SIZE
            invariant
                j <= FFT_SIZE,
                self.samples@.len() == ACCUMULATOR_SIZE,
                before.len() == ACCUMULATOR_SIZE,
                FFT_SIZE <= self.top <= ACCUMULATOR_SIZE,
                self.top == old(self).top,
                before == old(self).samples@,
                block@ == before.subrange(0, FFT_SIZE as int),
                forall|k: int| 0 <= k < j ==> #[trigger] self.samples@[k] == before[k + FFT_SIZE],
                forall|k: int| j <= k < ACCUMULATOR_SIZE ==> #[trigger] self.samples@[k] == before[k],
            decreases FFT_SIZE - j,
        {
            let moved = self.samples[j + FFT_SIZE];
            self.samples.set(j, moved);
            j = j + 1;
        }
        self.top = self.top - FFT_SIZE;
        assert(self.samples@ =~= before.subrange(FFT_SIZE as int, ACCUMULATOR_SIZE as int)
            + before.subrange(FFT_SIZE as int, ACCUMULATOR_SIZE as int));
        Some(block)
    }

    /// Writes `input` at the write position, leaving the samples before and
    /// after it and the write position itself as they were.
    pub fn store_input(&mut self, input: &[T])
        requires
            old(self).well_formed(),
            old(self).write_pos() + input@.len() <= ACCUMULATOR_SIZE,
        ensures
            final(self).well_formed(),
            final(self).contents() == old(self).contents().subrange(0, old(self).write_pos() as int)
                + input@ + old(self).contents().subrange(
                (old(self).write_pos() + input@.len()) as int,
                ACCUMULATOR_SIZE as int,
            ),
            final(self).write_pos() == old(self).write_pos(),
    {
        let ghost before = self.samples@;
        let top = self.top;
        let mut i: usize = 0;
        while i < input.len()
            invariant
                i <= input@.len(),
                top + input@.len() <= ACCUMULATOR_SIZE,
                self.top == top,
                before.len() == ACCUMULATOR_SIZE,
                self.samples@.len() == ACCUMULATOR_SIZE,
                forall|k: int| 0 <= k < top ==> #[trigger] self.samples@[k] == before[k],
                forall|k: int|
                    top <= k < top + i ==> #[trigger] self.samples@[k] == input@[k - top],
                forall|k: int|
                    top + i <= k < ACCUMULATOR_SIZE ==> #[trigger] self.samples@[k] == before[k],
            decreases input@.len() - i,
        {
            self.samples.set(top + i, input[i]);
            i = i + 1;
        }
        assert(self.samples@ =~= before.subrange(0, top as int) + input@ + before.subrange(
            top + input@.len(),
            ACCUMULATOR_SIZE as int,
        ));
    }
}

} // verus!
