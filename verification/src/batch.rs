//! Filling one fixed-size interleaved batch from the sample source's
//! signals, one value at a time: real samples are stored in order; a
//! pause or finish at position zero yields an empty batch, and past
//! position zero seals the batch with silence padding so the samples
//! already rendered are still flushed.

use vstd::prelude::*;

use crate::signal::ControlSignal;

verus! {

/// A sequence of `n` silence samples.
pub open spec fn zeros(n: nat) -> Seq<i16> {
    Seq::new(n, |i: int| 0i16)
}

/// `samples` followed by silence padding up to length `len`.
pub open spec fn padded(samples: Seq<i16>, len: nat) -> Seq<i16>
    recommends
        samples.len() <= len,
{
    samples + zeros((len - samples.len()) as nat)
}

/// What the render loop must do after handing one signal to the filler.
#[derive(Clone, Copy, PartialEq, Eq, Structural, Debug)]
pub enum FillStep {
    /// The batch is not complete yet: request another value.
    NeedMore,
    /// The batch is complete: decide on writing and the device state.
    Ready,
    /// `MetadataChanged` arrived mid-stream: fatal protocol violation.
    Violation,
}

/// One batch in the making. The buffer is allocated once and reused
/// across iterations; its length never changes.
pub struct BatchFill {
    /// The interleaved sample buffer, of fixed length.
    pub buf: Vec<i16>,
    /// How many real samples were stored this batch.
    pub pos: usize,
    /// `Paused` was observed this batch.
    pub paused: bool,
    /// `Finished` was observed this batch.
    pub finished: bool,
    /// Whether the batch holds data worth writing.
    pub have_data: bool,
    /// No further value may be pushed into this batch.
    pub complete: bool,
    /// The real samples received this batch, in order.
    pub samples: Ghost<Seq<i16>>,
}

impl BatchFill {
    /// The fixed batch length in samples.
    pub open spec fn len(self) -> nat {
        self.buf@.len()
    }

    /// A completed batch holds either a full buffer of real samples, or
    /// the real samples padded with silence after a pause or finish past
    /// position zero, or no data at all.
    pub open spec fn complete_wf(self) -> bool {
        if self.paused || self.finished {
            if self.pos == 0 {
                !self.have_data
            } else {
                self.have_data && self.buf@ == padded(self.samples@, self.len())
            }
        } else {
            &&& self.have_data
            &&& self.pos == self.len()
            &&& self.buf@ == self.samples@
        }
    }

    /// Well-formedness, preserved by every operation.
    pub open spec fn inv(self) -> bool {
        &&& self.len() >= 1
        &&& self.pos <= self.len()
        &&& self.samples@.len() == self.pos
        &&& (forall|j: int| 0 <= j < self.pos ==> self.buf@[j] == self.samples@[j])
        &&& !(self.paused && self.finished)
        &&& (!self.complete ==> !self.paused && !self.finished && self.have_data
            && self.pos < self.len())
        &&& (self.complete ==> self.complete_wf())
    }

    /// A fresh filler for batches of `len` samples.
    pub fn new(len: usize) -> (b: Self)
        requires
            len >= 1,
        ensures
            b.inv(),
            !b.complete,
            b.len() == len,
            b.pos == 0,
            b.samples@ === Seq::<i16>::empty(),
            !b.paused,
            !b.finished,
    {
        let mut buf: Vec<i16> = Vec::new();
        let mut i: usize = 0;
        while i < len
            invariant
                i <= len,
                buf@.len() == i,
            decreases len - i,
        {
            buf.push(0);
            i = i + 1;
        }
        BatchFill {
            buf,
            pos: 0,
            paused: false,
            finished: false,
            have_data: true,
            complete: false,
            samples: Ghost(Seq::empty()),
        }
    }

    /// Make the filler ready for the next batch, reusing the buffer.
    pub fn reset(&mut self)
        requires
            old(self).len() >= 1,
        ensures
            final(self).inv(),
            !final(self).complete,
            final(self).len() == old(self).len(),
            final(self).pos == 0,
            final(self).samples@ === Seq::<i16>::empty(),
            !final(self).paused,
            !final(self).finished,
    {
        self.pos = 0;
        self.paused = false;
        self.finished = false;
        self.have_data = true;
        self.complete = false;
        self.samples = Ghost(Seq::empty());
    }

    /// Complete the batch after a pause or finish: with no samples yet,
    /// mark it empty; otherwise pad the remainder with silence so the
    /// samples already rendered are still flushed.
    ///
    /// The remaining positions are padded without requesting further
    /// values — a deliberate choice. After a finish no further request
    /// may be made of the source at all, and after a pause the source
    /// yields nothing but pauses until the next batch boundary, so the
    /// sealed buffer is the same either way; sealing at once just makes
    /// fewer requests than asking for each padded position.
    fn seal(&mut self)
        requires
            old(self).len() >= 1,
            old(self).pos <= old(self).len(),
            old(self).samples@.len() == old(self).pos,
            forall|j: int| 0 <= j < old(self).pos ==> old(self).buf@[j] == old(self).samples@[j],
        ensures
            final(self).len() == old(self).len(),
            final(self).pos == old(self).pos,
            final(self).samples@ === old(self).samples@,
            final(self).paused == old(self).paused,
            final(self).finished == old(self).finished,
            final(self).complete,
            final(self).have_data <==> old(self).pos > 0,
            old(self).pos > 0 ==> final(self).buf@ == padded(old(self).samples@, old(self).len()),
            old(self).pos == 0 ==> final(self).buf@ == old(self).buf@,
    {
        if self.pos == 0 {
            self.have_data = false;
            self.complete = true;
        } else {
            let ghost snap = *self;
            let mut j = self.pos;
            while j < self.buf.len()
                invariant
                    snap.pos <= j <= self.buf@.len(),
                    self.buf@.len() == snap.buf@.len(),
                    self.pos == snap.pos,
                    self.paused == snap.paused,
                    self.finished == snap.finished,
                    self.have_data == snap.have_data,
                    self.complete == snap.complete,
                    self.samples == snap.samples,
                    forall|k: int| 0 <= k < snap.pos ==> self.buf@[k] == snap.buf@[k],
                    forall|k: int| snap.pos <= k < j ==> self.buf@[k] == 0i16,
                decreases self.buf@.len() - j,
            {
                self.buf.set(j, 0);
                j = j + 1;
            }
            proof {
                assert(self.buf@ =~= padded(snap.samples@, snap.buf@.len()));
            }
            self.have_data = true;
            self.complete = true;
        }
    }

    /// Law: a batch completed by real samples alone holds exactly the
    /// samples the source produced, in the order it produced them.
    pub proof fn lemma_ordering_within_batch(self)
        requires
            self.inv(),
            self.complete,
            !self.paused,
            !self.finished,
        ensures
            self.buf@ === self.samples@,
            self.have_data,
    {
    }

    /// Law: a pause or finish at a position past zero seals the batch
    /// as the real samples received, followed by exactly enough silence
    /// to fill the buffer, and the batch is still written.
    pub proof fn lemma_pause_padding(self)
        requires
            self.inv(),
            self.complete,
            self.paused || self.finished,
            self.pos > 0,
        ensures
            self.have_data,
            self.samples@.len() == self.pos,
            self.buf@ === self.samples@ + zeros((self.len() - self.pos) as nat),
    {
    }

    /// Law: a pause or finish at position zero yields no data, so no
    /// write occurs for that iteration and no stale buffer is flushed.
    pub proof fn lemma_immediate_pause(self)
        requires
            self.inv(),
            self.complete,
            self.paused || self.finished,
            self.pos == 0,
        ensures
            !self.have_data,
    {
    }

    /// Feed the next value obtained from the sample source into the
    /// batch. A real sample is stored at the next position; `Paused` or
    /// `Finished` completes the batch; `MetadataChanged` is a protocol
    /// violation and leaves the batch untouched.
    pub fn push(&mut self, sig: ControlSignal) -> (step: FillStep)
        requires
            old(self).inv(),
            !old(self).complete,
        ensures
            final(self).inv(),
            final(self).len() == old(self).len(),
            (sig matches ControlSignal::Sample(s) ==> {
                &&& final(self).samples@ === old(self).samples@.push(s)
                &&& final(self).pos == old(self).pos + 1
                &&& !final(self).paused
                &&& !final(self).finished
                &&& final(self).have_data
                &&& (final(self).complete <==> final(self).pos == final(self).len())
                &&& step == (if final(self).pos == final(self).len() {
                    FillStep::Ready
                } else {
                    FillStep::NeedMore
                })
            }),
            sig is MetadataChanged ==> step is Violation && *final(self) == *old(self),
            (sig is Paused || sig is Finished) ==> {
                &&& step is Ready
                &&& final(self).complete
                &&& final(self).paused == (sig is Paused)
                &&& final(self).finished == (sig is Finished)
                &&& final(self).samples@ === old(self).samples@
                &&& final(self).pos == old(self).pos
                &&& (final(self).have_data <==> old(self).pos > 0)
            },
    {
        match sig {
            ControlSignal::Sample(s) => {
                let n = self.buf.len();
                let i = self.pos;
                self.buf.set(i, s);
                self.pos = i + 1;
                self.samples = Ghost(self.samples@.push(s));
                if self.pos == n {
                    self.complete = true;
                    proof {
                        assert(self.buf@ =~= self.samples@);
                    }
                    FillStep::Ready
                } else {
                    FillStep::NeedMore
                }
            }
            ControlSignal::MetadataChanged => FillStep::Violation,
            ControlSignal::Paused => {
                self.paused = true;
                self.seal();
                FillStep::Ready
            }
            ControlSignal::Finished => {
                self.finished = true;
                self.seal();
                FillStep::Ready
            }
        }
    }
}

} // verus!
