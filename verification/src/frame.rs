//! Per-frame records and the ring that keeps them until the GPU results are ready.
use vstd::prelude::*;
use crate::events::FrameEvent;
use crate::indices::{FrameIndex, ProfilerIndex, SampleIndex};
use crate::profiler::{stopped_from, State, TimeSpanProfiler};

verus! {

/// Initial byte capacity of a frame's scratch buffer: room for two cluster counter blocks.
pub const INITIAL_SCRATCH_BYTE_COUNT: usize = 8192;

/// Number of frames whose GPU queries may be pending at once.
pub const FRAME_CONTEXT_RING_CAPACITY: usize = 3;

/// A block handed out by the scratch buffer.
#[derive(Debug, Clone, Copy, PartialEq, Eq, Structural)]
pub struct BufferView {
    pub byte_offset: usize,
    pub byte_count: usize,
}

/// Write cursor of a frame's scratch buffer. The GPU memory itself is kept by the caller,
/// who grows it whenever `byte_capacity` has grown.
#[derive(Debug, Clone, Copy, PartialEq, Eq, Structural)]
pub struct AllocBuffer {
    pub byte_capacity: usize,
    pub byte_cursor: usize,
}

impl AllocBuffer {
    /// The buffer after a block of `byte_count` bytes was handed out.
    pub open spec fn after_allocate(self, byte_count: usize) -> AllocBuffer {
        let end = (self.byte_cursor + byte_count) as usize;
        AllocBuffer {
            byte_capacity: if end > self.byte_capacity {
                end
            } else {
                self.byte_capacity
            },
            byte_cursor: end,
        }
    }

    /// An empty buffer of the given capacity.
    pub fn with_capacity(byte_capacity: usize) -> (buffer: Self)
        ensures
            buffer == (AllocBuffer { byte_capacity, byte_cursor: 0 }),
    {
        AllocBuffer { byte_capacity, byte_cursor: 0 }
    }

    /// Moves the write cursor back to the start; the capacity stays.
    pub fn reset(&mut self)
        ensures
            *final(self) == (AllocBuffer { byte_capacity: old(self).byte_capacity, byte_cursor: 0 }),
    {
        self.byte_cursor = 0;
    }

    /// Hands out the next `byte_count` bytes, growing the capacity where they do not fit.
    pub fn allocate(&mut self, byte_count: usize) -> (view: BufferView)
        requires
            old(self).byte_cursor + byte_count <= usize::MAX,
        ensures
            view == (BufferView { byte_offset: old(self).byte_cursor, byte_count }),
            *final(self) == old(self).after_allocate(byte_count),
    {
        let byte_offset: usize = self.byte_cursor;
        let end: usize = byte_offset + byte_count;
        if end > self.byte_capacity {
            self.byte_capacity = end;
        }
        self.byte_cursor = end;
        BufferView { byte_offset, byte_count }
    }
}

/// Number of time spans begun among the first `n` events.
pub open spec fn begin_count(events: Seq<FrameEvent>, n: int) -> int
    decreases n,
{
    if n <= 0 {
        0
    } else {
        begin_count(events, n - 1) + (if events[n - 1] is BeginTimeSpan {
            1int
        } else {
            0int
        })
    }
}

/// The count over a prefix depends on that prefix alone, and never exceeds its length.
pub proof fn lemma_begin_count_prefix(a: Seq<FrameEvent>, b: Seq<FrameEvent>, n: int)
    requires
        0 <= n <= a.len(),
        n <= b.len(),
        forall|i: int| 0 <= i < n ==> a[i] == b[i],
    ensures
        begin_count(a, n) == begin_count(b, n),
        0 <= begin_count(a, n) <= n,
    decreases n,
{
    if n > 0 {
        lemma_begin_count_prefix(a, b, n - 1);
    }
}

/// The count grows with the prefix.
pub proof fn lemma_begin_count_monotonic(events: Seq<FrameEvent>, m: int, n: int)
    requires
        0 <= m <= n,
    ensures
        0 <= begin_count(events, m) <= begin_count(events, n),
    decreases n,
{
    if m < n {
        lemma_begin_count_monotonic(events, m, n - 1);
    } else {
        lemma_begin_count_monotonic_base(events, m);
    }
}

proof fn lemma_begin_count_monotonic_base(events: Seq<FrameEvent>, n: int)
    requires
        0 <= n,
    ensures
        0 <= begin_count(events, n),
    decreases n,
{
    if n > 0 {
        lemma_begin_count_monotonic_base(events, n - 1);
    }
}

/// What a frame record holds, as plain values.
pub struct FrameModel {
    pub events: Seq<FrameEvent>,
    pub profilers_used: usize,
    pub profilers: Seq<State>,
    pub buffer: AllocBuffer,
}

impl FrameModel {
    /// The slots in use are in the pool, one for each time span begun.
    pub open spec fn wf(self) -> bool {
        &&& self.profilers_used <= self.profilers.len()
        &&& begin_count(self.events, self.events.len() as int) == self.profilers_used
    }

    /// The record after a reset: the log is empty, no slot is in use, the scratch buffer
    /// is rewound. The slots themselves stay.
    pub open spec fn reset(self) -> FrameModel {
        FrameModel {
            events: Seq::empty(),
            profilers_used: 0,
            profilers: self.profilers,
            buffer: AllocBuffer { byte_capacity: self.buffer.byte_capacity, byte_cursor: 0 },
        }
    }

    /// Whether a time span can be started: the next slot, if the pool has it already, is
    /// not open.
    pub open spec fn can_start(self) -> bool {
        &&& self.profilers_used < usize::MAX
        &&& self.profilers_used < self.profilers.len() ==> !(self.profilers[self.profilers_used as int] is Started)
    }

    /// Starts a time span for `sample_index` at CPU tick `cpu_now` on the next slot; the
    /// pool grows by one slot where it has none left.
    pub open spec fn start(self, sample_index: SampleIndex, cpu_now: u64) -> FrameModel {
        let started = State::Started { cpu_begin: cpu_now };
        FrameModel {
            events: self.events.push(FrameEvent::BeginTimeSpan(sample_index)),
            profilers_used: (self.profilers_used + 1) as usize,
            profilers: if self.profilers_used < self.profilers.len() {
                self.profilers.update(self.profilers_used as int, started)
            } else {
                self.profilers.push(started)
            },
            buffer: self.buffer,
        }
    }

    /// Whether the slot behind `profiler_index` can be stopped: it is in the pool, and open.
    pub open spec fn can_stop(self, profiler_index: ProfilerIndex) -> bool {
        &&& profiler_index.0 < self.profilers.len()
        &&& self.profilers[profiler_index.0 as int] is Started
    }

    /// Stops the time span on slot `profiler_index` at CPU tick `cpu_now`.
    pub open spec fn stop(self, profiler_index: ProfilerIndex, cpu_now: u64) -> FrameModel {
        FrameModel {
            events: self.events.push(FrameEvent::EndTimeSpan),
            profilers: self.profilers.update(
                profiler_index.0 as int,
                stopped_from(self.profilers[profiler_index.0 as int], cpu_now),
            ),
            ..self
        }
    }

    /// Hands out `byte_count` bytes of the scratch buffer.
    pub open spec fn allocate(self, byte_count: usize) -> FrameModel {
        FrameModel { buffer: self.buffer.after_allocate(byte_count), ..self }
    }

    /// Appends to the log an event that begins no time span.
    pub open spec fn record(self, event: FrameEvent) -> FrameModel {
        FrameModel { events: self.events.push(event), ..self }
    }
}

/// Record of one frame: what was called, the profiler slots it drove, the scratch buffer.
#[derive(Debug)]
pub struct FrameContext {
    pub events: Vec<FrameEvent>,
    pub profilers_used: usize,
    pub profilers: Vec<TimeSpanProfiler>,
    pub buffer: AllocBuffer,
}

impl View for FrameContext {
    type V = FrameModel;

    open spec fn view(&self) -> FrameModel {
        FrameModel {
            events: self.events@,
            profilers_used: self.profilers_used,
            profilers: Seq::new(self.profilers@.len(), |i: int| self.profilers@[i].state),
            buffer: self.buffer,
        }
    }
}

impl FrameContext {
    /// An empty record whose scratch buffer has room for two cluster counter blocks.
    pub fn new() -> (context: Self)
        ensures
            context@.wf(),
            context@ == (FrameModel {
                events: Seq::empty(),
                profilers_used: 0,
                profilers: Seq::empty(),
                buffer: AllocBuffer { byte_capacity: INITIAL_SCRATCH_BYTE_COUNT, byte_cursor: 0 },
            }),
    {
        let context = FrameContext {
            events: Vec::new(),
            profilers_used: 0,
            profilers: Vec::new(),
            buffer: AllocBuffer::with_capacity(INITIAL_SCRATCH_BYTE_COUNT),
        };
        assert(context@.profilers =~= Seq::empty());
        context
    }

    /// Makes the record ready for another frame.
    pub fn reset(&mut self)
        ensures
            final(self)@ == old(self)@.reset(),
            final(self)@.wf(),
    {
        self.events.clear();
        self.profilers_used = 0;
        self.buffer.reset();
    }

    /// Logs the begin of a time span for `sample_index` and opens the next slot at CPU
    /// tick `cpu_now`. Returns the handle of that slot.
    pub fn start_at(&mut self, sample_index: SampleIndex, cpu_now: u64) -> (profiler_index: ProfilerIndex)
        requires
            old(self)@.wf(),
            old(self)@.can_start(),
        ensures
            final(self)@.wf(),
            final(self)@ == old(self)@.start(sample_index, cpu_now),
            profiler_index.0 == old(self).profilers_used,
    {
        self.events.push(FrameEvent::BeginTimeSpan(sample_index));
        let index: usize = self.profilers_used;
        self.profilers_used = index + 1;
        if self.profilers.len() <= index {
            self.profilers.push(TimeSpanProfiler::new());
        }
        self.profilers[index].start_at(cpu_now);
        proof {
            assert(self@.profilers =~= old(self)@.start(sample_index, cpu_now).profilers);
            lemma_begin_count_prefix(self@.events, old(self)@.events, old(self)@.events.len() as int);
        }
        ProfilerIndex(index)
    }

    /// Logs the end of a time span and closes slot `profiler_index` at CPU tick `cpu_now`.
    pub fn stop_at(&mut self, profiler_index: ProfilerIndex, cpu_now: u64)
        requires
            old(self)@.wf(),
            old(self)@.can_stop(profiler_index),
        ensures
            final(self)@.wf(),
            final(self)@ == old(self)@.stop(profiler_index, cpu_now),
    {
        self.events.push(FrameEvent::EndTimeSpan);
        self.profilers[profiler_index.0].stop_at(cpu_now);
        proof {
            assert(self@.profilers =~= old(self)@.stop(profiler_index, cpu_now).profilers);
            lemma_begin_count_prefix(self@.events, old(self)@.events, old(self)@.events.len() as int);
        }
    }

    /// Hands out `byte_count` bytes of the scratch buffer.
    pub fn allocate(&mut self, byte_count: usize) -> (view: BufferView)
        requires
            old(self)@.wf(),
            old(self).buffer.byte_cursor + byte_count <= usize::MAX,
        ensures
            final(self)@.wf(),
            final(self)@ == old(self)@.allocate(byte_count),
            view == (BufferView { byte_offset: old(self).buffer.byte_cursor, byte_count }),
    {
        self.buffer.allocate(byte_count)
    }

    /// Appends to the log an event that begins no time span.
    pub fn record(&mut self, event: FrameEvent)
        requires
            old(self)@.wf(),
            !(event is BeginTimeSpan),
        ensures
            final(self)@.wf(),
            final(self)@ == old(self)@.record(event),
    {
        self.events.push(event);
        proof {
            lemma_begin_count_prefix(self@.events, old(self)@.events, old(self)@.events.len() as int);
        }
    }
}

/// The three frame records, indexed by frame index modulo the capacity.
#[derive(Debug)]
pub struct FrameContextRing {
    pub slots: Vec<FrameContext>,
}

impl View for FrameContextRing {
    type V = Seq<FrameModel>;

    open spec fn view(&self) -> Seq<FrameModel> {
        Seq::new(self.slots@.len(), |i: int| self.slots@[i]@)
    }
}

impl FrameContextRing {
    /// The slot that holds the record of frame `frame_index`.
    pub open spec fn slot_of(frame_index: FrameIndex) -> int {
        frame_index.0 as int % FRAME_CONTEXT_RING_CAPACITY as int
    }

    /// All three records exist and are well formed.
    pub open spec fn wf(&self) -> bool {
        &&& self.slots@.len() == FRAME_CONTEXT_RING_CAPACITY
        &&& forall|i: int| 0 <= i < self.slots@.len() ==> (#[trigger] self.slots@[i])@.wf()
    }

    /// A ring of empty records.
    pub fn new() -> (ring: Self)
        ensures
            ring.wf(),
            forall|i: int|
                0 <= i < FRAME_CONTEXT_RING_CAPACITY ==> (#[trigger] ring@[i]) == (FrameModel {
                    events: Seq::empty(),
                    profilers_used: 0,
                    profilers: Seq::empty(),
                    buffer: AllocBuffer { byte_capacity: INITIAL_SCRATCH_BYTE_COUNT, byte_cursor: 0 },
                }),
    {
        let mut slots: Vec<FrameContext> = Vec::new();
        let mut i: usize = 0;
        while i < FRAME_CONTEXT_RING_CAPACITY
            invariant
                i <= FRAME_CONTEXT_RING_CAPACITY,
                slots@.len() == i,
                forall|k: int|
                    0 <= k < slots@.len() ==> (#[trigger] slots@[k])@.wf() && slots@[k]@ == (FrameModel {
                        events: Seq::empty(),
                        profilers_used: 0,
                        profilers: Seq::empty(),
                        buffer: AllocBuffer { byte_capacity: INITIAL_SCRATCH_BYTE_COUNT, byte_cursor: 0 },
                    }),
            decreases FRAME_CONTEXT_RING_CAPACITY - i,
        {
            slots.push(FrameContext::new());
            i = i + 1;
        }
        FrameContextRing { slots }
    }

    /// Resets every record.
    pub fn reset(&mut self)
        requires
            old(self).wf(),
        ensures
            final(self).wf(),
            final(self)@ == old(self)@.map_values(|frame: FrameModel| frame.reset()),
    {
        let mut i: usize = 0;
        while i < FRAME_CONTEXT_RING_CAPACITY
            invariant
                i <= FRAME_CONTEXT_RING_CAPACITY,
                self.slots@.len() == FRAME_CONTEXT_RING_CAPACITY,
                forall|k: int| 0 <= k < i ==> (#[trigger] self.slots@[k])@ == old(self).slots@[k]@.reset(),
                forall|k: int|
                    i <= k < FRAME_CONTEXT_RING_CAPACITY ==> (#[trigger] self.slots@[k]) == old(
                        self,
                    ).slots@[k],
                old(self).wf(),
            decreases FRAME_CONTEXT_RING_CAPACITY - i,
        {
            self.slots[i].reset();
            i = i + 1;
        }
        assert(self@ =~= old(self)@.map_values(|frame: FrameModel| frame.reset()));
        assert forall|k: int| 0 <= k < self.slots@.len() implies (#[trigger] self.slots@[k])@.wf() by {
            assert(self.slots@[k]@ == old(self).slots@[k]@.reset());
        }
    }

    /// The record of frame `frame_index`.
    pub fn index(&self, frame_index: FrameIndex) -> (context: &FrameContext)
        requires
            self.wf(),
        ensures
            *context == self.slots@[Self::slot_of(frame_index)],
    {
        &self.slots[frame_index.0 % FRAME_CONTEXT_RING_CAPACITY]
    }
}

} // verus!
