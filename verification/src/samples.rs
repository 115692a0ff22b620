//! The statistics window: resolved spans of the most recent frames, one row per frame.
use vstd::prelude::*;
use crate::indices::{FrameIndex, SampleIndex};
use crate::time_span::GpuCpuTimeSpan;

verus! {

/// Number of frames in the statistics window.
pub const SAMPLES_RING_CAPACITY: usize = 9;

/// One row of the window: for each registered sample, its span in one frame, if resolved.
pub type SampleRow = Vec<Option<GpuCpuTimeSpan>>;

/// Circular buffer of sample rows, indexed by frame index modulo its capacity.
#[derive(Debug)]
pub struct SamplesRing {
    pub sample_count: usize,
    pub ring: Vec<SampleRow>,
}

impl Default for SamplesRing {
    fn default() -> (ring: Self)
        ensures
            ring.wf(),
            ring.sample_count == 0,
            ring.rows() == Seq::new(SAMPLES_RING_CAPACITY as nat, |i: int| Seq::<Option<GpuCpuTimeSpan>>::empty()),
    {
        SamplesRing::new()
    }
}

impl SamplesRing {
    /// Every row exists and has one entry per registered sample.
    pub open spec fn wf(&self) -> bool {
        &&& self.ring@.len() == SAMPLES_RING_CAPACITY
        &&& forall|i: int| 0 <= i < self.ring@.len() ==> (#[trigger] self.ring@[i])@.len() == self.sample_count
    }

    /// The rows as sequences, in slot order.
    pub open spec fn rows(&self) -> Seq<Seq<Option<GpuCpuTimeSpan>>> {
        Seq::new(self.ring@.len(), |i: int| self.ring@[i]@)
    }

    /// The slot that holds the row of frame `frame_index`.
    pub open spec fn slot_of(frame_index: FrameIndex) -> int {
        frame_index.0 as int % SAMPLES_RING_CAPACITY as int
    }

    /// A window with no samples registered.
    pub fn new() -> (ring: Self)
        ensures
            ring.wf(),
            ring.sample_count == 0,
            ring.rows() == Seq::new(SAMPLES_RING_CAPACITY as nat, |i: int| Seq::<Option<GpuCpuTimeSpan>>::empty()),
    {
        let mut ring: Vec<SampleRow> = Vec::new();
        let mut i: usize = 0;
        while i < SAMPLES_RING_CAPACITY
            invariant
                i <= SAMPLES_RING_CAPACITY,
                ring@.len() == i,
                forall|k: int| 0 <= k < ring@.len() ==> (#[trigger] ring@[k])@.len() == 0,
            decreases SAMPLES_RING_CAPACITY - i,
        {
            ring.push(Vec::new());
            i = i + 1;
        }
        let samples = SamplesRing { sample_count: 0, ring };
        assert forall|i: int| 0 <= i < samples.rows().len() implies #[trigger] samples.rows()[i]
            =~= Seq::<Option<GpuCpuTimeSpan>>::empty() by {
            assert(samples.ring@[i]@.len() == 0);
        }
        assert(samples.rows() =~= Seq::new(
            SAMPLES_RING_CAPACITY as nat,
            |i: int| Seq::<Option<GpuCpuTimeSpan>>::empty(),
        ));
        samples
    }

    /// Registers one more sample: every row gains an unresolved entry at its end.
    /// Returns the index of the new sample.
    pub fn add_sample(&mut self) -> (index: SampleIndex)
        requires
            old(self).wf(),
            old(self).sample_count < usize::MAX,
        ensures
            final(self).wf(),
            index.0 == old(self).sample_count,
            final(self).sample_count == old(self).sample_count + 1,
            forall|i: int|
                0 <= i < SAMPLES_RING_CAPACITY ==> (#[trigger] final(self).ring@[i])@ == old(
                    self,
                ).ring@[i]@.push(None),
    {
        let index = SampleIndex::from_usize(self.sample_count);
        self.sample_count = self.sample_count + 1;
        let mut i: usize = 0;
        while i < SAMPLES_RING_CAPACITY
            invariant
                i <= SAMPLES_RING_CAPACITY,
                self.ring@.len() == SAMPLES_RING_CAPACITY,
                self.sample_count == old(self).sample_count + 1,
                forall|k: int| 0 <= k < i ==> (#[trigger] self.ring@[k])@ == old(self).ring@[k]@.push(None),
                forall|k: int|
                    i <= k < SAMPLES_RING_CAPACITY ==> (#[trigger] self.ring@[k]) == old(self).ring@[k],
                old(self).wf(),
            decreases SAMPLES_RING_CAPACITY - i,
        {
            self.ring[i].push(None);
            i = i + 1;
        }
        index
    }

    /// Forgets every resolved span; the rows keep their length.
    pub fn clear(&mut self)
        requires
            old(self).wf(),
        ensures
            final(self).wf(),
            final(self).sample_count == old(self).sample_count,
            forall|i: int, s: int|
                0 <= i < SAMPLES_RING_CAPACITY && 0 <= s < final(self).sample_count ==> (
                #[trigger] final(self).ring@[i]@[s]) is None,
    {
        let mut i: usize = 0;
        while i < SAMPLES_RING_CAPACITY
            invariant
                i <= SAMPLES_RING_CAPACITY,
                self.wf(),
                self.sample_count == old(self).sample_count,
                forall|k: int, s: int|
                    0 <= k < i && 0 <= s < self.sample_count ==> (#[trigger] self.ring@[k]@[s]) is None,
            decreases SAMPLES_RING_CAPACITY - i,
        {
            self.clear_row(FrameIndex(i));
            i = i + 1;
        }
    }

    /// Forgets the resolved spans of the row that belongs to frame `frame_index`.
    pub fn clear_row(&mut self, frame_index: FrameIndex)
        requires
            old(self).wf(),
        ensures
            final(self).wf(),
            final(self).sample_count == old(self).sample_count,
            forall|s: int|
                0 <= s < final(self).sample_count ==> (#[trigger] final(self).ring@[Self::slot_of(
                    frame_index,
                )]@[s]) is None,
            forall|k: int|
                0 <= k < SAMPLES_RING_CAPACITY && k != Self::slot_of(frame_index) ==> (
                #[trigger] final(self).ring@[k]) == old(self).ring@[k],
    {
        let slot: usize = frame_index.0 % SAMPLES_RING_CAPACITY;
        let count: usize = self.sample_count;
        let mut s: usize = 0;
        while s < count
            invariant
                s <= count,
                count == self.sample_count,
                slot == Self::slot_of(frame_index),
                self.wf(),
                self.sample_count == old(self).sample_count,
                forall|j: int| 0 <= j < s ==> (#[trigger] self.ring@[slot as int]@[j]) is None,
                forall|k: int|
                    0 <= k < SAMPLES_RING_CAPACITY && k != slot ==> (#[trigger] self.ring@[k]) == old(
                        self,
                    ).ring@[k],
            decreases count - s,
        {
            self.ring[slot][s] = None;
            s = s + 1;
        }
    }

    /// The row of frame `frame_index`.
    pub fn index(&self, frame_index: FrameIndex) -> (row: &SampleRow)
        requires
            self.wf(),
        ensures
            *row == self.ring@[Self::slot_of(frame_index)],
    {
        &self.ring[frame_index.0 % SAMPLES_RING_CAPACITY]
    }

    /// The entry of sample `sample_index` in the row of frame `frame_index`.
    pub open spec fn spec_get(&self, frame_index: FrameIndex, sample_index: SampleIndex) -> Option<
        GpuCpuTimeSpan,
    > {
        self.ring@[Self::slot_of(frame_index)]@[sample_index.0 as int]
    }

    /// Reads the entry of sample `sample_index` in the row of frame `frame_index`.
    pub fn get(&self, frame_index: FrameIndex, sample_index: SampleIndex) -> (span: Option<
        GpuCpuTimeSpan,
    >)
        requires
            self.wf(),
            sample_index.0 < self.sample_count,
        ensures
            span == self.spec_get(frame_index, sample_index),
    {
        self.ring[frame_index.0 % SAMPLES_RING_CAPACITY][sample_index.0]
    }

    /// Stores `span` as the entry of sample `sample_index` in the row of frame `frame_index`.
    pub fn set(&mut self, frame_index: FrameIndex, sample_index: SampleIndex, span: Option<GpuCpuTimeSpan>)
        requires
            old(self).wf(),
            sample_index.0 < old(self).sample_count,
        ensures
            final(self).wf(),
            final(self).sample_count == old(self).sample_count,
            final(self).ring@[Self::slot_of(frame_index)]@ == old(self).ring@[Self::slot_of(
                frame_index,
            )]@.update(sample_index.0 as int, span),
            forall|k: int|
                0 <= k < SAMPLES_RING_CAPACITY && k != Self::slot_of(frame_index) ==> (
                #[trigger] final(self).ring@[k]) == old(self).ring@[k],
    {
        let slot: usize = frame_index.0 % SAMPLES_RING_CAPACITY;
        self.ring[slot][sample_index.0] = span;
    }
}

} // verus!
