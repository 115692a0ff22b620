//! The profiling context: runs, frames, samples and the deferred readback.
use vstd::prelude::*;
use crate::events::{
    readback_matches, FrameEvent, MeasurementEvent, ProfilingConfiguration, Readback, BASIC_BUFFER_BYTE_COUNT,
    CLUSTER_BUFFER_BYTE_COUNT,
};
use crate::frame::{
    begin_count, lemma_begin_count_monotonic, BufferView, FrameContext, FrameContextRing,
    FRAME_CONTEXT_RING_CAPACITY,
};
use crate::indices::{FrameIndex, ProfilerIndex, RunIndex, SampleIndex};
use crate::model::{
    readable, replayed, resolved_entry, resolved_event, resolved_row, resolved_trace, span_of_event,
    ContextModel,
};
use crate::profiler::{elapsed_nanos, Epoch, State};
use crate::samples::{SamplesRing, SAMPLES_RING_CAPACITY};
use crate::stats::{cpu_deltas, gpu_deltas, summarize, window_full, GpuCpuStats};
use crate::time_span::GpuCpuTimeSpan;
use ProfilingConfiguration as Configuration;
use ProfilingContext as Context;

verus! {

/// Owner of both rings, the sample registry, the run and frame counters, and the queue
/// of trace records that wait to be persisted.
#[derive(Debug)]
pub struct ProfilingContext {
    pub epoch: Epoch,
    pub run_index: RunIndex,
    pub run_started: bool,
    pub frame_index: FrameIndex,
    pub frame_started: bool,
    pub frame_context_ring: FrameContextRing,
    pub samples_ring: SamplesRing,
    pub sample_names: Vec<&'static str>,
    pub record_events: bool,
    pub pending_events: Vec<MeasurementEvent>,
}

impl View for ProfilingContext {
    type V = ContextModel;

    open spec fn view(&self) -> ContextModel {
        ContextModel {
            epoch: self.epoch,
            run_index: self.run_index,
            run_started: self.run_started,
            frame_index: self.frame_index,
            frame_started: self.frame_started,
            frames: self.frame_context_ring@,
            sample_count: self.samples_ring.sample_count,
            rows: self.samples_ring.rows(),
            sample_names: self.sample_names@,
            recording: self.record_events,
            pending: self.pending_events@,
        }
    }
}

/// Appends `event` to `pending` where `recording` is on.
fn push_event(recording: bool, pending: &mut Vec<MeasurementEvent>, event: MeasurementEvent)
    ensures
        final(pending)@ == (if recording {
            old(pending)@.push(event)
        } else {
            old(pending)@
        }),
{
    if recording {
        pending.push(event);
    }
}

/// Whether `readback` is the kind of data that `event` asks for.
fn matches_kind(event: FrameEvent, readback: Readback) -> (ok: bool)
    ensures
        ok == readback_matches(event, readback),
{
    match (event, readback) {
        (FrameEvent::BeginTimeSpan(_), Readback::Counters(_)) => true,
        (FrameEvent::EndTimeSpan, Readback::Nothing) => true,
        (FrameEvent::RecordClusterBuffer { .. }, Readback::Cluster(_)) => true,
        (FrameEvent::RecordBasicBuffer { .. }, Readback::Basic(_)) => true,
        _ => false,
    }
}

/// Whether the record `frame` can be replayed with `readbacks`.
fn frame_readable(frame: &FrameContext, readbacks: &Vec<Readback>, sample_count: usize) -> (ok: bool)
    requires
        frame@.wf(),
    ensures
        ok == readable(frame@, readbacks@, sample_count),
{
    let count: usize = frame.events.len();
    if readbacks.len() != count {
        return false;
    }
    let mut j: usize = 0;
    while j < count
        invariant
            j <= count,
            count == frame.events@.len(),
            readbacks@.len() == count,
            forall|k: int| 0 <= k < j ==> readback_matches(#[trigger] frame@.events[k], readbacks@[k]),
            forall|k: int|
                0 <= k < j && (#[trigger] frame@.events[k]) is BeginTimeSpan
                    ==> frame@.events[k]->BeginTimeSpan_0.0 < sample_count,
            forall|a: int, b: int|
                0 <= a < b < j && (#[trigger] frame@.events[a]) is BeginTimeSpan ==> frame@.events[a]
                    != #[trigger] frame@.events[b],
        decreases count - j,
    {
        let event: FrameEvent = frame.events[j];
        if !matches_kind(event, readbacks[j]) {
            assert(!readback_matches(frame@.events[j as int], readbacks@[j as int]));
            return false;
        }
        match event {
            FrameEvent::BeginTimeSpan(sample_index) => {
                if sample_index.0 >= sample_count {
                    assert(frame@.events[j as int] is BeginTimeSpan);
                    return false;
                }
            },
            _ => {},
        }
        let mut i: usize = 0;
        while i < j
            invariant
                i <= j,
                j < count,
                count == frame.events@.len(),
                event == frame@.events[j as int],
                forall|a: int|
                    0 <= a < i && (#[trigger] frame@.events[a]) is BeginTimeSpan ==> frame@.events[a]
                        != event,
            decreases j - i,
        {
            let earlier: FrameEvent = frame.events[i];
            match earlier {
                FrameEvent::BeginTimeSpan(_) => {
                    if earlier == event {
                        assert(frame@.events[i as int] is BeginTimeSpan);
                        assert(frame@.events[i as int] == frame@.events[j as int]);
                        return false;
                    }
                },
                _ => {},
            }
            i = i + 1;
        }
        j = j + 1;
    }
    let mut k: usize = 0;
    while k < frame.profilers_used
        invariant
            k <= frame.profilers_used,
            frame@.wf(),
            forall|m: int| 0 <= m < k ==> (#[trigger] frame@.profilers[m]) is Stopped,
        decreases frame.profilers_used - k,
    {
        match frame.profilers[k].state() {
            State::Stopped { .. } => {},
            _ => {
                assert(!(frame@.profilers[k as int] is Stopped));
                return false;
            },
        }
        k = k + 1;
    }
    true
}

impl Context {
    /// Both rings are well formed and every registered sample has a name.
    pub open spec fn wf(&self) -> bool {
        &&& self.frame_context_ring.wf()
        &&& self.samples_ring.wf()
        &&& self.sample_names@.len() == self.samples_ring.sample_count
    }

    /// A well-formed context has a well-formed model.
    pub proof fn lemma_view_wf(&self)
        requires
            self.wf(),
        ensures
            self@.wf(),
    {
    }

    /// A context with no sample, before its first run. Trace records are queued where
    /// the configuration asks for them.
    pub fn new(epoch: Epoch, configuration: &Configuration) -> (context: Self)
        ensures
            context.wf(),
            context@ == ContextModel::initial(epoch, configuration.record_events),
    {
        let context = ProfilingContext {
            epoch,
            run_index: RunIndex::from_usize(0),
            run_started: false,
            frame_index: FrameIndex::from_usize(0),
            frame_started: false,
            frame_context_ring: FrameContextRing::new(),
            samples_ring: SamplesRing::new(),
            sample_names: Vec::new(),
            record_events: configuration.record_events,
            pending_events: Vec::new(),
        };
        assert(context@.frames =~= ContextModel::initial(epoch, configuration.record_events).frames);
        context
    }

    /// Takes the queued trace records, oldest first, and leaves the queue empty.
    pub fn take_events(&mut self) -> (events: Vec<MeasurementEvent>)
        ensures
            events@ == old(self)@.pending,
            final(self)@ == (ContextModel { pending: Seq::empty(), ..old(self)@ }),
            old(self).wf() ==> final(self).wf(),
    {
        let mut events: Vec<MeasurementEvent> = Vec::new();
        std::mem::swap(&mut self.pending_events, &mut events);
        events
    }

    /// The index of the open run.
    pub fn run_index(&self) -> (run_index: RunIndex)
        requires
            self.run_started,
        ensures
            run_index == self@.run_index,
    {
        self.run_index
    }

    /// Registers a sample under `sample` and returns its index, which is the number of
    /// samples registered before. Every window row gains an unresolved entry, and the
    /// registration is queued as a trace record.
    pub fn add_sample(&mut self, sample: &'static str) -> (sample_index: SampleIndex)
        requires
            old(self).wf(),
            old(self).samples_ring.sample_count < usize::MAX,
        ensures
            final(self).wf(),
            sample_index.0 == old(self)@.sample_count,
            final(self)@ == (ContextModel { pending: final(self)@.pending, ..old(self)@.add_sample(sample) }),
            !old(self)@.recording ==> final(self)@.pending == old(self)@.pending,
            old(self)@.recording ==> final(self)@.pending.len() == old(self)@.pending.len() + 1
                && final(self)@.pending.drop_last() == old(self)@.pending && (
            final(self)@.pending.last() matches MeasurementEvent::SampleName(index, name) && index
                == sample_index && name@ == sample@),
    {
        let sample_index = self.samples_ring.add_sample();
        self.sample_names.push(sample);
        push_event(
            self.record_events,
            &mut self.pending_events,
            MeasurementEvent::SampleName(sample_index, sample.to_owned()),
        );
        proof {
            assert(self@.rows =~= old(self)@.add_sample(sample).rows);
            if self.record_events {
                assert(self@.pending.drop_last() =~= old(self)@.pending);
            }
        }
        sample_index
    }

    /// Opens run `run_index`, which must be the run that is next and not open yet.
    pub fn begin_run(&mut self, run_index: RunIndex)
        requires
            old(self).wf(),
            !old(self).run_started,
            old(self).run_index == run_index,
        ensures
            final(self).wf(),
            final(self)@ == old(self)@.begin_run(run_index),
    {
        self.run_started = true;
        push_event(self.record_events, &mut self.pending_events, MeasurementEvent::BeginRun(run_index));
    }

    /// Closes run `run_index`, which must be the open run. Everything that belongs to
    /// frames is forgotten: the frame index, the frame records, the statistics window.
    pub fn end_run(&mut self, run_index: RunIndex)
        requires
            old(self).wf(),
            old(self).run_started,
            old(self).run_index == run_index,
            old(self).run_index.0 < usize::MAX,
        ensures
            final(self).wf(),
            final(self)@ == old(self)@.end_run(),
    {
        self.run_started = false;
        self.run_index.increment();
        push_event(self.record_events, &mut self.pending_events, MeasurementEvent::EndRun);
        self.frame_index = FrameIndex::from_usize(0);
        self.frame_context_ring.reset();
        self.samples_ring.clear();
        proof {
            assert forall|i: int| 0 <= i < SAMPLES_RING_CAPACITY implies #[trigger] self@.rows[i]
                =~= old(self)@.end_run().rows[i] by {
                assert(self.samples_ring.ring@[i]@.len() == self.samples_ring.sample_count);
                assert forall|s: int| 0 <= s < self.samples_ring.sample_count implies self@.rows[i][s]
                    == None::<GpuCpuTimeSpan> by {
                    assert(self.samples_ring.ring@[i]@[s] is None);
                }
            }
            assert(self@.rows =~= old(self)@.end_run().rows);
        }
    }

    /// Whether a time span can be started: the next profiler slot of the current frame,
    /// if the pool has it already, is not open.
    pub fn can_start(&self) -> (ok: bool)
        requires
            self.wf(),
        ensures
            ok == self@.can_start(),
    {
        let frame = self.frame_context_ring.index(self.frame_index);
        let used: usize = frame.profilers_used;
        if used == usize::MAX {
            false
        } else if used < frame.profilers.len() {
            match frame.profilers[used].state() {
                State::Started { .. } => false,
                _ => true,
            }
        } else {
            true
        }
    }

    /// Whether the slot behind `profiler_index` can be stopped: it is in the pool of the
    /// current frame, and open.
    pub fn can_stop(&self, profiler_index: ProfilerIndex) -> (ok: bool)
        requires
            self.wf(),
        ensures
            ok == self@.can_stop(profiler_index),
    {
        let frame = self.frame_context_ring.index(self.frame_index);
        if profiler_index.0 < frame.profilers.len() {
            match frame.profilers[profiler_index.0].state() {
                State::Started { .. } => true,
                _ => false,
            }
        } else {
            false
        }
    }

    /// Whether frame `frame_index` can begin with `readbacks`.
    pub fn can_begin_frame(&self, frame_index: FrameIndex, readbacks: &Vec<Readback>) -> (ok: bool)
        requires
            self.wf(),
        ensures
            ok == (self.run_started && !self.frame_started && self.frame_index == frame_index
                && self@.can_resolve(frame_index, readbacks@)),
    {
        if !self.run_started || self.frame_started || self.frame_index.0 != frame_index.0 {
            false
        } else if frame_index.0 >= FRAME_CONTEXT_RING_CAPACITY {
            frame_readable(
                self.frame_context_ring.index(frame_index),
                readbacks,
                self.samples_ring.sample_count,
            )
        } else {
            true
        }
    }

    /// Opens frame `frame_index`, which must be the frame that is next and not open yet,
    /// inside an open run. From the fourth frame of a run on, the frame recorded three
    /// frames earlier is replayed with `readbacks`, which holds what was read back from
    /// the GPU for each event of that frame's log, in log order: the resolved spans
    /// replace that frame's row of the statistics window, the frame's trace is queued,
    /// and its record is reset for the frame that opens.
    pub fn begin_frame(&mut self, frame_index: FrameIndex, readbacks: &Vec<Readback>)
        requires
            old(self).wf(),
            old(self).run_started,
            !old(self).frame_started,
            old(self).frame_index == frame_index,
            old(self)@.can_resolve(frame_index, readbacks@),
        ensures
            final(self).wf(),
            final(self)@ == old(self)@.begin_frame(frame_index, readbacks@),
    {
        self.frame_started = true;
        if frame_index.0 >= FRAME_CONTEXT_RING_CAPACITY {
            let past = FrameIndex::from_usize(frame_index.0 - FRAME_CONTEXT_RING_CAPACITY);
            let slot: usize = frame_index.0 % FRAME_CONTEXT_RING_CAPACITY;
            let ghost pre = old(self)@;
            let ghost frame = pre.frames[slot as int];
            let ghost row = SamplesRing::slot_of(past);
            let recording: bool = self.record_events;
            push_event(recording, &mut self.pending_events, MeasurementEvent::BeginFrame(past));
            self.samples_ring.clear_row(past);
            let count: usize = self.frame_context_ring.slots[slot].events.len();
            let mut used: usize = 0;
            let mut i: usize = 0;
            proof {
                assert(old(self).frame_context_ring.slots@[slot as int]@.wf());
                assert(self.pending_events@ =~= if recording {
                    pre.pending.push(MeasurementEvent::BeginFrame(past)) + resolved_trace(
                        frame,
                        readbacks@,
                        0,
                    )
                } else {
                    pre.pending
                });
            }
            while i < count
                invariant
                    i <= count,
                    count == frame.events.len(),
                    slot == frame_index.0 % FRAME_CONTEXT_RING_CAPACITY,
                    past.0 == frame_index.0 - FRAME_CONTEXT_RING_CAPACITY,
                    row == SamplesRing::slot_of(past),
                    pre == old(self)@,
                    frame == pre.frames[slot as int],
                    frame.wf(),
                    readable(frame, readbacks@, pre.sample_count),
                    recording == pre.recording,
                    self.epoch == old(self).epoch,
                    self.run_index == old(self).run_index,
                    self.run_started == old(self).run_started,
                    self.frame_index == old(self).frame_index,
                    self.frame_started,
                    self.record_events == old(self).record_events,
                    self.sample_names@ == old(self).sample_names@,
                    old(self).wf(),
                    self.frame_context_ring.slots@.len() == FRAME_CONTEXT_RING_CAPACITY,
                    forall|k: int|
                        0 <= k < FRAME_CONTEXT_RING_CAPACITY && k != slot ==> (
                        #[trigger] self.frame_context_ring.slots@[k]) == old(
                            self,
                        ).frame_context_ring.slots@[k],
                    self.frame_context_ring.slots@[slot as int].events@ == frame.events,
                    self.frame_context_ring.slots@[slot as int].profilers_used == frame.profilers_used,
                    self.frame_context_ring.slots@[slot as int].buffer == frame.buffer,
                    self.frame_context_ring.slots@[slot as int].profilers@.len() == frame.profilers.len(),
                    used == begin_count(frame.events, i as int),
                    used <= frame.profilers_used,
                    forall|j: int|
                        0 <= j < used ==> (#[trigger] self.frame_context_ring.slots@[slot as int].profilers@[j]).state
                            == State::Empty,
                    forall|j: int|
                        used <= j < frame.profilers.len() ==> (
                        #[trigger] self.frame_context_ring.slots@[slot as int].profilers@[j]).state
                            == frame.profilers[j],
                    self.samples_ring.wf(),
                    self.samples_ring.sample_count == pre.sample_count,
                    forall|s: int|
                        0 <= s < pre.sample_count ==> (#[trigger] self.samples_ring.ring@[row]@[s])
                            == resolved_entry(frame, readbacks@, SampleIndex(s as usize), i as int),
                    forall|k: int|
                        0 <= k < SAMPLES_RING_CAPACITY && k != row ==> (#[trigger] self.samples_ring.ring@[k])
                            == old(self).samples_ring.ring@[k],
                    self.pending_events@ == (if recording {
                        pre.pending.push(MeasurementEvent::BeginFrame(past)) + resolved_trace(
                            frame,
                            readbacks@,
                            i as int,
                        )
                    } else {
                        pre.pending
                    }),
                decreases count - i,
            {
                let event: FrameEvent = self.frame_context_ring.slots[slot].events[i];
                let readback: Readback = readbacks[i];
                let ghost before = self.pending_events@;
                proof {
                    assert(readback_matches(frame.events[i as int], readbacks@[i as int]));
                    lemma_begin_count_monotonic(frame.events, i as int + 1, count as int);
                }
                match (event, readback) {
                    (FrameEvent::BeginTimeSpan(sample_index), Readback::Counters(gpu)) => {
                        assert(frame.profilers[used as int] is Stopped);
                        let resolved = self.frame_context_ring.slots[slot].profilers[used].read(gpu);
                        used = used + 1;
                        match resolved {
                            Some(span) => {
                                assert(span == span_of_event(frame, readbacks@, i as int));
                                push_event(
                                    recording,
                                    &mut self.pending_events,
                                    MeasurementEvent::BeginTimeSpan(sample_index, span),
                                );
                                self.samples_ring.set(past, sample_index, Some(span));
                            },
                            None => {},
                        }
                    },
                    (FrameEvent::EndTimeSpan, Readback::Nothing) => {
                        push_event(recording, &mut self.pending_events, MeasurementEvent::EndTimeSpan);
                    },
                    (FrameEvent::RecordClusterBuffer { .. }, Readback::Cluster(buffer)) => {
                        push_event(
                            recording,
                            &mut self.pending_events,
                            MeasurementEvent::RecordClusterBuffer(buffer),
                        );
                    },
                    (FrameEvent::RecordBasicBuffer { .. }, Readback::Basic(buffer)) => {
                        push_event(
                            recording,
                            &mut self.pending_events,
                            MeasurementEvent::RecordBasicBuffer(buffer),
                        );
                    },
                    _ => {},
                }
                proof {
                    let next = resolved_event(frame, readbacks@, i as int);
                    assert(resolved_trace(frame, readbacks@, i as int + 1) =~= resolved_trace(
                        frame,
                        readbacks@,
                        i as int,
                    ).push(next));
                    if recording {
                        assert(self.pending_events@ == before.push(next));
                        assert(self.pending_events@ =~= pre.pending.push(MeasurementEvent::BeginFrame(past))
                            + resolved_trace(frame, readbacks@, i as int + 1));
                    }
                    assert forall|s: int| 0 <= s < pre.sample_count implies (
                    #[trigger] self.samples_ring.ring@[row]@[s]) == resolved_entry(
                        frame,
                        readbacks@,
                        SampleIndex(s as usize),
                        i as int + 1,
                    ) by {
                        assert(event == frame.events[i as int]);
                    }
                }
                i = i + 1;
            }
            push_event(recording, &mut self.pending_events, MeasurementEvent::EndFrame);
            self.frame_context_ring.slots[slot].reset();
            proof {
                let post = pre.begin_frame(frame_index, readbacks@);
                assert(self.frame_context_ring.slots@[slot as int]@.profilers =~= replayed(frame).profilers);
                assert(self.frame_context_ring.slots@[slot as int]@ == replayed(frame));
                assert forall|k: int| 0 <= k < self.frame_context_ring.slots@.len() implies (
                #[trigger] self.frame_context_ring.slots@[k])@.wf() by {
                    if k != slot {
                        assert(old(self).frame_context_ring.slots@[k]@.wf());
                    }
                }
                assert(self@.frames =~= post.frames);
                assert(self.samples_ring.ring@[row]@ =~= resolved_row(frame, readbacks@, pre.sample_count));
                assert(self@.rows =~= post.rows);
                assert(self@.pending =~= post.pending);
            }
        }
    }

    /// Closes frame `frame_index`, which must be the open frame, and moves on to the next.
    pub fn end_frame(&mut self, frame_index: FrameIndex)
        requires
            old(self).wf(),
            old(self).run_started,
            old(self).frame_started,
            old(self).frame_index == frame_index,
            old(self).frame_index.0 < usize::MAX,
        ensures
            final(self).wf(),
            final(self)@ == old(self)@.end_frame(),
    {
        self.frame_started = false;
        self.frame_index.increment();
    }

    /// The event log of the frame before `frame_index`, the latest that is complete;
    /// nothing for the first frame.
    pub fn events(&self, frame_index: FrameIndex) -> (events: Option<&[FrameEvent]>)
        requires
            self.wf(),
        ensures
            frame_index.0 == 0 <==> events is None,
            events matches Some(log) ==> Some(log@) == self@.events(frame_index),
            events is None ==> self@.events(frame_index) is None,
    {
        if frame_index.0 >= 1 {
            let previous = FrameIndex::from_usize(frame_index.0 - 1);
            let context = self.frame_context_ring.index(previous);
            Some(context.events.as_slice())
        } else {
            None
        }
    }

    /// The latest resolved span of sample `sample_index`: that of the frame three frames
    /// before the current one. Nothing during the first three frames of a run.
    pub fn sample(&self, sample_index: SampleIndex) -> (span: Option<GpuCpuTimeSpan>)
        requires
            self.wf(),
            self.frame_index.0 >= FRAME_CONTEXT_RING_CAPACITY ==> sample_index.0
                < self.samples_ring.sample_count,
        ensures
            span == self@.sample(sample_index),
            self.frame_index.0 < FRAME_CONTEXT_RING_CAPACITY ==> span is None,
    {
        if self.frame_index.0 >= FRAME_CONTEXT_RING_CAPACITY {
            let past = FrameIndex::from_usize(self.frame_index.0 - FRAME_CONTEXT_RING_CAPACITY);
            self.samples_ring.get(past, sample_index)
        } else {
            None
        }
    }

    /// Starts a time span for `sample_index` at CPU tick `cpu_now`: the begin is logged
    /// in the current frame and the frame's next profiler slot is opened. Returns the
    /// handle of that slot, to be handed to `stop`.
    pub fn start_at(&mut self, sample_index: SampleIndex, cpu_now: u64) -> (profiler_index: ProfilerIndex)
        requires
            old(self).wf(),
            old(self)@.can_start(),
        ensures
            final(self).wf(),
            final(self)@ == old(self)@.start(sample_index, cpu_now),
            profiler_index.0 == old(self)@.current().profilers_used,
    {
        let slot: usize = self.frame_index.0 % FRAME_CONTEXT_RING_CAPACITY;
        let profiler_index = self.frame_context_ring.slots[slot].start_at(sample_index, cpu_now);
        proof {
            assert(self@.frames =~= old(self)@.start(sample_index, cpu_now).frames);
        }
        profiler_index
    }

    /// Starts a time span for `sample_index` at the current reading of the CPU clock.
    pub fn start(&mut self, sample_index: SampleIndex) -> (profiler_index: ProfilerIndex)
        requires
            old(self).wf(),
            old(self)@.can_start(),
        ensures
            final(self).wf(),
            exists|cpu_now: u64| final(self)@ == old(self)@.start(sample_index, cpu_now),
            profiler_index.0 == old(self)@.current().profilers_used,
    {
        let cpu_now: u64 = elapsed_nanos(&self.epoch);
        self.start_at(sample_index, cpu_now)
    }

    /// Stops the time span on slot `profiler_index` at CPU tick `cpu_now`: the end is
    /// logged in the current frame and the slot is closed.
    pub fn stop_at(&mut self, profiler_index: ProfilerIndex, cpu_now: u64)
        requires
            old(self).wf(),
            old(self)@.can_stop(profiler_index),
        ensures
            final(self).wf(),
            final(self)@ == old(self)@.stop(profiler_index, cpu_now),
    {
        let slot: usize = self.frame_index.0 % FRAME_CONTEXT_RING_CAPACITY;
        self.frame_context_ring.slots[slot].stop_at(profiler_index, cpu_now);
        proof {
            assert(self@.frames =~= old(self)@.stop(profiler_index, cpu_now).frames);
        }
    }

    /// Stops the time span on slot `profiler_index` at the current reading of the CPU clock.
    pub fn stop(&mut self, profiler_index: ProfilerIndex)
        requires
            old(self).wf(),
            old(self)@.can_stop(profiler_index),
        ensures
            final(self).wf(),
            exists|cpu_now: u64| final(self)@ == old(self)@.stop(profiler_index, cpu_now),
    {
        let cpu_now: u64 = elapsed_nanos(&self.epoch);
        self.stop_at(profiler_index, cpu_now);
    }

    /// Reserves a block of the current frame's scratch buffer for a snapshot of the
    /// cluster counters and logs the capture. The caller copies the counters into the
    /// block that is returned.
    pub fn record_cluster_buffer(&mut self) -> (view: BufferView)
        requires
            old(self).wf(),
            old(self)@.current().buffer.byte_cursor + CLUSTER_BUFFER_BYTE_COUNT <= usize::MAX,
        ensures
            final(self).wf(),
            view == (BufferView {
                byte_offset: old(self)@.current().buffer.byte_cursor,
                byte_count: CLUSTER_BUFFER_BYTE_COUNT,
            }),
            final(self)@ == old(self)@.allocate(CLUSTER_BUFFER_BYTE_COUNT).record(
                FrameEvent::RecordClusterBuffer { byte_offset: view.byte_offset },
            ),
    {
        let slot: usize = self.frame_index.0 % FRAME_CONTEXT_RING_CAPACITY;
        let view = self.frame_context_ring.slots[slot].allocate(CLUSTER_BUFFER_BYTE_COUNT);
        self.frame_context_ring.slots[slot].record(
            FrameEvent::RecordClusterBuffer { byte_offset: view.byte_offset },
        );
        proof {
            assert(self@.frames =~= old(self)@.allocate(CLUSTER_BUFFER_BYTE_COUNT).record(
                FrameEvent::RecordClusterBuffer { byte_offset: view.byte_offset },
            ).frames);
        }
        view
    }

    /// Reserves a block of the current frame's scratch buffer for the basic counters.
    /// The caller zeroes the block, lets the GPU count into it, and then calls
    /// `end_basic_buffer` with the block.
    pub fn begin_basic_buffer(&mut self) -> (view: BufferView)
        requires
            old(self).wf(),
            old(self)@.current().buffer.byte_cursor + BASIC_BUFFER_BYTE_COUNT <= usize::MAX,
        ensures
            final(self).wf(),
            view == (BufferView {
                byte_offset: old(self)@.current().buffer.byte_cursor,
                byte_count: BASIC_BUFFER_BYTE_COUNT,
            }),
            final(self)@ == old(self)@.allocate(BASIC_BUFFER_BYTE_COUNT),
    {
        let slot: usize = self.frame_index.0 % FRAME_CONTEXT_RING_CAPACITY;
        let view = self.frame_context_ring.slots[slot].allocate(BASIC_BUFFER_BYTE_COUNT);
        proof {
            assert(self@.frames =~= old(self)@.allocate(BASIC_BUFFER_BYTE_COUNT).frames);
        }
        view
    }

    /// Logs the capture of the basic counters in block `view`.
    pub fn end_basic_buffer(&mut self, view: BufferView)
        requires
            old(self).wf(),
        ensures
            final(self).wf(),
            final(self)@ == old(self)@.record(
                FrameEvent::RecordBasicBuffer { byte_offset: view.byte_offset },
            ),
    {
        let slot: usize = self.frame_index.0 % FRAME_CONTEXT_RING_CAPACITY;
        self.frame_context_ring.slots[slot].record(
            FrameEvent::RecordBasicBuffer { byte_offset: view.byte_offset },
        );
        proof {
            assert(self@.frames =~= old(self)@.record(
                FrameEvent::RecordBasicBuffer { byte_offset: view.byte_offset },
            ).frames);
        }
    }

    /// Average, minimum and maximum elapsed time of sample `sample_index` over the whole
    /// statistics window, per clock. Nothing unless every row of the window holds a span
    /// for the sample.
    pub fn stats(&self, sample_index: SampleIndex) -> (stats: Option<GpuCpuStats>)
        requires
            self.wf(),
            sample_index.0 < self.samples_ring.sample_count,
        ensures
            stats == self@.stats(sample_index),
            stats is None <==> exists|i: int|
                0 <= i < SAMPLES_RING_CAPACITY && (#[trigger] self@.rows[i])[sample_index.0 as int] is None,
    {
        let ghost column = self@.column(sample_index);
        let mut cpu_elapsed: Vec<u64> = Vec::new();
        let mut gpu_elapsed: Vec<u64> = Vec::new();
        let mut index: usize = 0;
        while index < SAMPLES_RING_CAPACITY
            invariant
                index <= SAMPLES_RING_CAPACITY,
                self.wf(),
                sample_index.0 < self.samples_ring.sample_count,
                column == self@.column(sample_index),
                cpu_elapsed@.len() == index,
                gpu_elapsed@.len() == index,
                forall|k: int| 0 <= k < index ==> (#[trigger] column[k]) is Some,
                forall|k: int| 0 <= k < index ==> #[trigger] cpu_elapsed@[k] == cpu_deltas(column)[k],
                forall|k: int| 0 <= k < index ==> #[trigger] gpu_elapsed@[k] == gpu_deltas(column)[k],
            decreases SAMPLES_RING_CAPACITY - index,
        {
            match self.samples_ring.get(FrameIndex::from_usize(index), sample_index) {
                None => {
                    proof {
                        assert(column[index as int] is None);
                        assert(self@.rows[index as int][sample_index.0 as int] is None);
                    }
                    return None;
                },
                Some(span) => {
                    proof {
                        assert(column[index as int] == Some(span));
                    }
                    cpu_elapsed.push(span.cpu.delta());
                    gpu_elapsed.push(span.gpu.delta());
                },
            }
            index = index + 1;
        }
        proof {
            assert(window_full(column));
            assert(cpu_elapsed@ =~= cpu_deltas(column));
            assert(gpu_elapsed@ =~= gpu_deltas(column));
            assert forall|i: int| 0 <= i < SAMPLES_RING_CAPACITY implies !((
            #[trigger] self@.rows[i])[sample_index.0 as int] is None) by {
                assert(column[i] is Some);
            }
        }
        let cpu = summarize(&cpu_elapsed);
        let gpu = summarize(&gpu_elapsed);
        Some(
            GpuCpuStats {
                gpu_elapsed_avg: gpu.0,
                gpu_elapsed_min: gpu.1,
                gpu_elapsed_max: gpu.2,
                cpu_elapsed_avg: cpu.0,
                cpu_elapsed_min: cpu.1,
                cpu_elapsed_max: cpu.2,
            },
        )
    }

    /// Whether timings of this run are meaningful: every run but the first.
    pub fn time_sensitive(&self) -> (sensitive: bool)
        ensures
            sensitive == (self@.run_index.0 != 0),
    {
        self.run_index.0 != 0
    }
}

} // verus!
