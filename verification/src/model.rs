//! The profiling protocol as transitions on plain values.
use vstd::prelude::*;
use crate::events::{readback_matches, FrameEvent, MeasurementEvent, Readback};
use crate::frame::{
    begin_count, AllocBuffer, FrameModel, FRAME_CONTEXT_RING_CAPACITY, INITIAL_SCRATCH_BYTE_COUNT,
};
use crate::indices::{FrameIndex, ProfilerIndex, RunIndex, SampleIndex};
use crate::profiler::{Epoch, State};
use crate::samples::SAMPLES_RING_CAPACITY;
use crate::stats::{stats_of, GpuCpuStats};
use crate::time_span::{GpuCpuTimeSpan, TimeSpan};

verus! {

/// The span that the `i`-th event of `frame`, which begins a time span, resolves to: the
/// CPU ticks of the profiler slot it drove, with the GPU counter values read back for it.
pub open spec fn span_of_event(frame: FrameModel, readbacks: Seq<Readback>, i: int) -> GpuCpuTimeSpan {
    let state = frame.profilers[begin_count(frame.events, i)];
    GpuCpuTimeSpan {
        gpu: readbacks[i]->Counters_0,
        cpu: TimeSpan { begin: state->Stopped_cpu_begin, end: state->Stopped_cpu_end },
    }
}

/// The trace record that the `i`-th event of `frame` resolves to.
pub open spec fn resolved_event(frame: FrameModel, readbacks: Seq<Readback>, i: int) -> MeasurementEvent {
    match frame.events[i] {
        FrameEvent::BeginTimeSpan(sample_index) => MeasurementEvent::BeginTimeSpan(
            sample_index,
            span_of_event(frame, readbacks, i),
        ),
        FrameEvent::EndTimeSpan => MeasurementEvent::EndTimeSpan,
        FrameEvent::RecordClusterBuffer { .. } => MeasurementEvent::RecordClusterBuffer(
            readbacks[i]->Cluster_0,
        ),
        FrameEvent::RecordBasicBuffer { .. } => MeasurementEvent::RecordBasicBuffer(readbacks[i]->Basic_0),
    }
}

/// The trace records of the first `n` events of `frame`, in call order.
pub open spec fn resolved_trace(frame: FrameModel, readbacks: Seq<Readback>, n: int) -> Seq<
    MeasurementEvent,
> {
    Seq::new(n as nat, |i: int| resolved_event(frame, readbacks, i))
}

/// The span of sample `sample_index` after the first `n` events of `frame` were replayed:
/// that of the latest event among them that begins a time span for it, if there is one.
pub open spec fn resolved_entry(
    frame: FrameModel,
    readbacks: Seq<Readback>,
    sample_index: SampleIndex,
    n: int,
) -> Option<GpuCpuTimeSpan>
    decreases n,
{
    if n <= 0 {
        None
    } else if frame.events[n - 1] == FrameEvent::BeginTimeSpan(sample_index) {
        Some(span_of_event(frame, readbacks, n - 1))
    } else {
        resolved_entry(frame, readbacks, sample_index, n - 1)
    }
}

/// The window row that the replay of `frame` yields.
pub open spec fn resolved_row(frame: FrameModel, readbacks: Seq<Readback>, sample_count: usize) -> Seq<
    Option<GpuCpuTimeSpan>,
> {
    Seq::new(
        sample_count as nat,
        |s: int| resolved_entry(frame, readbacks, SampleIndex(s as usize), frame.events.len() as int),
    )
}

/// Whether `frame` can be replayed with `readbacks`: there is one readback of the right
/// kind per event, every sample is registered and begun at most once, and every slot
/// that the frame drove was stopped.
pub open spec fn readable(frame: FrameModel, readbacks: Seq<Readback>, sample_count: usize) -> bool {
    &&& readbacks.len() == frame.events.len()
    &&& forall|i: int|
        0 <= i < frame.events.len() ==> readback_matches(#[trigger] frame.events[i], readbacks[i])
    &&& forall|i: int|
        0 <= i < frame.events.len() && (#[trigger] frame.events[i]) is BeginTimeSpan
            ==> frame.events[i]->BeginTimeSpan_0.0 < sample_count
    &&& forall|i: int, j: int|
        0 <= i < j < frame.events.len() && (#[trigger] frame.events[i]) is BeginTimeSpan
            ==> frame.events[i] != #[trigger] frame.events[j]
    &&& forall|k: int| 0 <= k < frame.profilers_used ==> (#[trigger] frame.profilers[k]) is Stopped
}

/// The record of a frame after its replay: every slot it drove is empty again, and the
/// record is reset.
pub open spec fn replayed(frame: FrameModel) -> FrameModel {
    FrameModel {
        events: Seq::empty(),
        profilers_used: 0,
        profilers: Seq::new(
            frame.profilers.len(),
            |k: int|
                if k < frame.profilers_used {
                    State::Empty
                } else {
                    frame.profilers[k]
                },
        ),
        buffer: AllocBuffer { byte_capacity: frame.buffer.byte_capacity, byte_cursor: 0 },
    }
}

/// The whole state of a profiling context, as plain values.
pub struct ContextModel {
    /// The reference point of the CPU clock.
    pub epoch: Epoch,
    pub run_index: RunIndex,
    pub run_started: bool,
    pub frame_index: FrameIndex,
    pub frame_started: bool,
    /// The frame records, by slot.
    pub frames: Seq<FrameModel>,
    pub sample_count: usize,
    /// The rows of the statistics window, by slot.
    pub rows: Seq<Seq<Option<GpuCpuTimeSpan>>>,
    pub sample_names: Seq<&'static str>,
    /// Whether trace records are queued.
    pub recording: bool,
    /// The trace records queued and not yet taken, oldest first.
    pub pending: Seq<MeasurementEvent>,
}

impl ContextModel {
    /// Both rings have their capacity, every frame record is well formed, and every
    /// window row and the name registry have one entry per registered sample.
    pub open spec fn wf(self) -> bool {
        &&& self.frames.len() == FRAME_CONTEXT_RING_CAPACITY
        &&& forall|i: int| 0 <= i < self.frames.len() ==> (#[trigger] self.frames[i]).wf()
        &&& self.rows.len() == SAMPLES_RING_CAPACITY
        &&& forall|i: int| 0 <= i < self.rows.len() ==> (#[trigger] self.rows[i]).len() == self.sample_count
        &&& self.sample_names.len() == self.sample_count
    }

    /// The state of a context that has measured nothing: no sample, run zero not begun,
    /// empty frame records, an empty window, nothing queued.
    pub open spec fn initial(epoch: Epoch, recording: bool) -> ContextModel {
        ContextModel {
            epoch,
            run_index: RunIndex(0),
            run_started: false,
            frame_index: FrameIndex(0),
            frame_started: false,
            frames: Seq::new(
                FRAME_CONTEXT_RING_CAPACITY as nat,
                |i: int|
                    FrameModel {
                        events: Seq::empty(),
                        profilers_used: 0,
                        profilers: Seq::empty(),
                        buffer: AllocBuffer { byte_capacity: INITIAL_SCRATCH_BYTE_COUNT, byte_cursor: 0 },
                    },
            ),
            sample_count: 0,
            rows: Seq::new(SAMPLES_RING_CAPACITY as nat, |i: int| Seq::empty()),
            sample_names: Seq::empty(),
            recording,
            pending: Seq::empty(),
        }
    }

    /// The slot of the frame record in use for the current frame.
    pub open spec fn current_slot(self) -> int {
        self.frame_index.0 as int % FRAME_CONTEXT_RING_CAPACITY as int
    }

    /// The record of the current frame.
    pub open spec fn current(self) -> FrameModel {
        self.frames[self.current_slot()]
    }

    /// The state with `frame` as the record of the current frame.
    pub open spec fn with_current(self, frame: FrameModel) -> ContextModel {
        ContextModel { frames: self.frames.update(self.current_slot(), frame), ..self }
    }

    /// Queues `event` where recording is on; does nothing where it is off.
    pub open spec fn emit(self, event: MeasurementEvent) -> ContextModel {
        if self.recording {
            ContextModel { pending: self.pending.push(event), ..self }
        } else {
            self
        }
    }

    /// Registers a sample named `name`; the trace record of the registration is not
    /// part of this transition.
    pub open spec fn add_sample(self, name: &'static str) -> ContextModel {
        ContextModel {
            sample_count: (self.sample_count + 1) as usize,
            rows: Seq::new(self.rows.len(), |i: int| self.rows[i].push(None)),
            sample_names: self.sample_names.push(name),
            ..self
        }
    }

    pub open spec fn begin_run(self, run_index: RunIndex) -> ContextModel {
        (ContextModel { run_started: true, ..self }).emit(MeasurementEvent::BeginRun(run_index))
    }

    /// Ends the run: the next run index, frame zero, every frame record reset, every
    /// window entry forgotten.
    pub open spec fn end_run(self) -> ContextModel {
        (ContextModel {
            run_started: false,
            run_index: RunIndex((self.run_index.0 + 1) as usize),
            frame_index: FrameIndex(0),
            frames: self.frames.map_values(|frame: FrameModel| frame.reset()),
            rows: Seq::new(
                self.rows.len(),
                |i: int| Seq::new(self.sample_count as nat, |s: int| None::<GpuCpuTimeSpan>),
            ),
            ..self
        }).emit(MeasurementEvent::EndRun)
    }

    /// The frame whose results are read back when frame `frame_index` begins.
    pub open spec fn resolved_frame(frame_index: FrameIndex) -> FrameIndex {
        FrameIndex((frame_index.0 - FRAME_CONTEXT_RING_CAPACITY) as usize)
    }

    /// Whether frame `frame_index` can begin with `readbacks`: nothing is asked of the
    /// first frames of a run; later the record in its slot must be replayable.
    pub open spec fn can_resolve(self, frame_index: FrameIndex, readbacks: Seq<Readback>) -> bool {
        frame_index.0 >= FRAME_CONTEXT_RING_CAPACITY ==> readable(
            self.frames[frame_index.0 as int % FRAME_CONTEXT_RING_CAPACITY as int],
            readbacks,
            self.sample_count,
        )
    }

    /// Begins frame `frame_index`. From the fourth frame of a run on, the frame recorded
    /// three frames earlier is replayed: its spans replace the window row of that frame,
    /// its trace is queued between a frame begin and a frame end record, and its record
    /// is made ready for the frame that begins.
    pub open spec fn begin_frame(self, frame_index: FrameIndex, readbacks: Seq<Readback>) -> ContextModel {
        if frame_index.0 < FRAME_CONTEXT_RING_CAPACITY {
            ContextModel { frame_started: true, ..self }
        } else {
            let past = Self::resolved_frame(frame_index);
            let slot = frame_index.0 as int % FRAME_CONTEXT_RING_CAPACITY as int;
            let frame = self.frames[slot];
            ContextModel {
                frame_started: true,
                frames: self.frames.update(slot, replayed(frame)),
                rows: self.rows.update(
                    past.0 as int % SAMPLES_RING_CAPACITY as int,
                    resolved_row(frame, readbacks, self.sample_count),
                ),
                pending: if self.recording {
                    (self.pending.push(MeasurementEvent::BeginFrame(past)) + resolved_trace(
                        frame,
                        readbacks,
                        frame.events.len() as int,
                    )).push(MeasurementEvent::EndFrame)
                } else {
                    self.pending
                },
                ..self
            }
        }
    }

    pub open spec fn end_frame(self) -> ContextModel {
        ContextModel {
            frame_started: false,
            frame_index: FrameIndex((self.frame_index.0 + 1) as usize),
            ..self
        }
    }

    /// Whether a time span can be started in the current frame.
    pub open spec fn can_start(self) -> bool {
        self.current().can_start()
    }

    /// Starts a time span for `sample_index` at CPU tick `cpu_now` in the current frame.
    pub open spec fn start(self, sample_index: SampleIndex, cpu_now: u64) -> ContextModel {
        self.with_current(self.current().start(sample_index, cpu_now))
    }

    /// Whether the slot behind `profiler_index` of the current frame can be stopped.
    pub open spec fn can_stop(self, profiler_index: ProfilerIndex) -> bool {
        self.current().can_stop(profiler_index)
    }

    /// Stops the time span on slot `profiler_index` of the current frame.
    pub open spec fn stop(self, profiler_index: ProfilerIndex, cpu_now: u64) -> ContextModel {
        self.with_current(self.current().stop(profiler_index, cpu_now))
    }

    /// Hands out `byte_count` bytes of the current frame's scratch buffer.
    pub open spec fn allocate(self, byte_count: usize) -> ContextModel {
        self.with_current(self.current().allocate(byte_count))
    }

    /// Appends `event` to the log of the current frame.
    pub open spec fn record(self, event: FrameEvent) -> ContextModel {
        self.with_current(self.current().record(event))
    }

    /// The latest resolved span of a sample: that of the frame three frames back, and
    /// nothing during the first three frames of a run.
    pub open spec fn sample(self, sample_index: SampleIndex) -> Option<GpuCpuTimeSpan> {
        if self.frame_index.0 >= FRAME_CONTEXT_RING_CAPACITY {
            let row = Self::resolved_frame(self.frame_index).0 as int % SAMPLES_RING_CAPACITY as int;
            self.rows[row][sample_index.0 as int]
        } else {
            None
        }
    }

    /// The entries of a sample in the window, by slot.
    pub open spec fn column(self, sample_index: SampleIndex) -> Seq<Option<GpuCpuTimeSpan>> {
        Seq::new(self.rows.len(), |i: int| self.rows[i][sample_index.0 as int])
    }

    /// The statistics of a sample over the window: nothing unless every row holds a span
    /// for it.
    pub open spec fn stats(self, sample_index: SampleIndex) -> Option<GpuCpuStats> {
        stats_of(self.column(sample_index))
    }

    /// The event log of the frame before `frame_index`; nothing for the first frame.
    pub open spec fn events(self, frame_index: FrameIndex) -> Option<Seq<FrameEvent>> {
        if frame_index.0 >= 1 {
            Some(self.frames[(frame_index.0 - 1) % FRAME_CONTEXT_RING_CAPACITY as int].events)
        } else {
            None
        }
    }
}

} // verus!
