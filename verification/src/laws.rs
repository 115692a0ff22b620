//! What holds of the profiling protocol, for every state and input.
use vstd::prelude::*;
use crate::events::{FrameEvent, Readback};
use crate::frame::{FrameContextRing, FrameModel, FRAME_CONTEXT_RING_CAPACITY};
use crate::indices::{FrameIndex, ProfilerIndex, RunIndex, SampleIndex};
use crate::model::{readable, resolved_entry, span_of_event, ContextModel};
use crate::samples::SAMPLES_RING_CAPACITY;
use crate::stats::{cpu_deltas, gpu_deltas, lemma_min_max_average};

verus! {

/// Registering a sample keeps every row of the statistics window as long as the number
/// of samples registered so far.
pub proof fn lemma_add_sample_keeps_rows(model: ContextModel, name: &'static str)
    requires
        model.wf(),
        model.sample_count < usize::MAX,
    ensures
        model.add_sample(name).wf(),
        model.add_sample(name).sample_count == model.sample_count + 1,
        forall|i: int|
            0 <= i < SAMPLES_RING_CAPACITY ==> (#[trigger] model.add_sample(name).rows[i]).len()
                == model.sample_count + 1,
{
}

/// Replaying a frame and ending a run, the two transitions that rewrite the window,
/// keep every row as long as the number of samples registered so far.
pub proof fn lemma_rows_keep_length(model: ContextModel, frame_index: FrameIndex, readbacks: Seq<Readback>)
    requires
        model.wf(),
    ensures
        forall|i: int|
            0 <= i < SAMPLES_RING_CAPACITY ==> (#[trigger] model.begin_frame(frame_index, readbacks).rows[i]).len()
                == model.sample_count,
        forall|i: int|
            0 <= i < SAMPLES_RING_CAPACITY ==> (#[trigger] model.end_run().rows[i]).len()
                == model.sample_count,
        model.begin_frame(frame_index, readbacks).sample_count == model.sample_count,
        model.end_run().sample_count == model.sample_count,
{
}

/// Among the first `n` events of a replayable frame, the one at `i` that begins a time
/// span for `sample_index` decides the entry of that sample.
pub proof fn lemma_resolved_entry_of_event(
    frame: FrameModel,
    readbacks: Seq<Readback>,
    sample_count: usize,
    sample_index: SampleIndex,
    i: int,
    n: int,
)
    requires
        readable(frame, readbacks, sample_count),
        0 <= i < n <= frame.events.len(),
        frame.events[i] == FrameEvent::BeginTimeSpan(sample_index),
    ensures
        resolved_entry(frame, readbacks, sample_index, n) == Some(span_of_event(frame, readbacks, i)),
    decreases n,
{
    if n - 1 > i {
        assert(frame.events[i] != frame.events[n - 1]);
        lemma_resolved_entry_of_event(frame, readbacks, sample_count, sample_index, i, n - 1);
    }
}

/// A sample for which none of the first `n` events begins a time span has no entry.
pub proof fn lemma_resolved_entry_absent(
    frame: FrameModel,
    readbacks: Seq<Readback>,
    sample_index: SampleIndex,
    n: int,
)
    requires
        n <= frame.events.len(),
        forall|i: int| 0 <= i < n ==> frame.events[i] != FrameEvent::BeginTimeSpan(sample_index),
    ensures
        resolved_entry(frame, readbacks, sample_index, n) is None,
    decreases n,
{
    if n > 0 {
        lemma_resolved_entry_absent(frame, readbacks, sample_index, n - 1);
    }
}

/// The record of a frame is kept until the frame three frames later begins: whatever is
/// started, stopped, captured or logged in the current frame, and the end of that frame,
/// leave the other two records as they are, and so does the begin of a frame for every
/// record but the one in its own slot; three frames later the slot is the same again.
pub proof fn lemma_record_kept_until_replay(
    model: ContextModel,
    slot: int,
    sample_index: SampleIndex,
    profiler_index: ProfilerIndex,
    cpu_now: u64,
    event: FrameEvent,
    byte_count: usize,
    readbacks: Seq<Readback>,
)
    requires
        model.wf(),
        0 <= slot < FRAME_CONTEXT_RING_CAPACITY,
        slot != model.current_slot(),
    ensures
        model.start(sample_index, cpu_now).frames[slot] == model.frames[slot],
        model.stop(profiler_index, cpu_now).frames[slot] == model.frames[slot],
        model.record(event).frames[slot] == model.frames[slot],
        model.allocate(byte_count).frames[slot] == model.frames[slot],
        model.begin_frame(model.frame_index, readbacks).frames[slot] == model.frames[slot],
        model.end_frame().frames == model.frames,
        model.frame_index.0 + FRAME_CONTEXT_RING_CAPACITY <= usize::MAX ==> FrameContextRing::slot_of(
            FrameIndex((model.frame_index.0 + FRAME_CONTEXT_RING_CAPACITY) as usize),
        ) == model.current_slot(),
{
}

/// During the first three frames of a run no sample has a resolved span.
pub proof fn lemma_sample_unavailable_early(model: ContextModel, sample_index: SampleIndex)
    requires
        model.frame_index.0 < FRAME_CONTEXT_RING_CAPACITY,
    ensures
        model.sample(sample_index) is None,
        model.begin_frame(model.frame_index, Seq::empty()).sample(sample_index) is None,
{
}

/// From the fourth frame of a run on, once a frame has begun, the span of a sample is
/// the one recorded three frames earlier: the CPU ticks of the profiler slot that the
/// sample's time span drove in that frame, with the GPU counter values read back for it.
/// A sample that began no time span in that frame has no span.
pub proof fn lemma_sample_after_begin_frame(
    model: ContextModel,
    readbacks: Seq<Readback>,
    sample_index: SampleIndex,
)
    requires
        model.wf(),
        model.frame_index.0 >= FRAME_CONTEXT_RING_CAPACITY,
        model.can_resolve(model.frame_index, readbacks),
        sample_index.0 < model.sample_count,
    ensures
        ({
            let recorded = model.current();
            let post = model.begin_frame(model.frame_index, readbacks);
            &&& forall|i: int|
                0 <= i < recorded.events.len() && #[trigger] recorded.events[i] == FrameEvent::BeginTimeSpan(
                    sample_index,
                ) ==> post.sample(sample_index) == Some(span_of_event(recorded, readbacks, i))
            &&& (forall|i: int|
                0 <= i < recorded.events.len() ==> #[trigger] recorded.events[i]
                    != FrameEvent::BeginTimeSpan(sample_index)) ==> post.sample(sample_index) is None
        }),
{
    let recorded = model.current();
    let post = model.begin_frame(model.frame_index, readbacks);
    let n = recorded.events.len() as int;
    assert(post.sample(sample_index) == resolved_entry(
        recorded,
        readbacks,
        SampleIndex(sample_index.0 as int as usize),
        n,
    ));
    assert forall|i: int|
        0 <= i < recorded.events.len() && #[trigger] recorded.events[i] == FrameEvent::BeginTimeSpan(
            sample_index,
        ) implies post.sample(sample_index) == Some(span_of_event(recorded, readbacks, i)) by {
        lemma_resolved_entry_of_event(recorded, readbacks, model.sample_count, sample_index, i, n);
    }
    if forall|i: int|
        0 <= i < recorded.events.len() ==> #[trigger] recorded.events[i] != FrameEvent::BeginTimeSpan(
            sample_index,
        ) {
        lemma_resolved_entry_absent(recorded, readbacks, sample_index, n);
    }
}

/// Whether the statistics of a sample bound, on each clock, its elapsed time in window row `i`.
pub open spec fn row_within_bounds(model: ContextModel, sample_index: SampleIndex, i: int) -> bool {
    let stats = model.stats(sample_index)->0;
    let span = model.rows[i][sample_index.0 as int]->0;
    &&& stats.cpu_elapsed_min <= span.cpu.spec_delta() <= stats.cpu_elapsed_max
    &&& stats.gpu_elapsed_min <= span.gpu.spec_delta() <= stats.gpu_elapsed_max
}

/// A sample has statistics exactly when every row of the window holds a span for it.
/// Then, on each clock, the minimum and the maximum bound the elapsed time of every row,
/// and the average lies between them.
pub proof fn lemma_stats_bounds(model: ContextModel, sample_index: SampleIndex)
    requires
        model.wf(),
        sample_index.0 < model.sample_count,
    ensures
        model.stats(sample_index) is None <==> exists|i: int|
            0 <= i < SAMPLES_RING_CAPACITY && (#[trigger] model.rows[i])[sample_index.0 as int] is None,
        model.stats(sample_index) matches Some(stats) ==> {
            &&& stats.cpu_elapsed_min <= stats.cpu_elapsed_avg <= stats.cpu_elapsed_max
            &&& stats.gpu_elapsed_min <= stats.gpu_elapsed_avg <= stats.gpu_elapsed_max
            &&& forall|i: int|
                0 <= i < SAMPLES_RING_CAPACITY ==> #[trigger] row_within_bounds(model, sample_index, i)
        },
{
    let column = model.column(sample_index);
    if exists|i: int|
        0 <= i < SAMPLES_RING_CAPACITY && (#[trigger] model.rows[i])[sample_index.0 as int] is None {
        let i = choose|i: int|
            0 <= i < SAMPLES_RING_CAPACITY && (#[trigger] model.rows[i])[sample_index.0 as int] is None;
        assert(column[i] is None);
    } else {
        assert forall|i: int| 0 <= i < column.len() implies (#[trigger] column[i]) is Some by {
            assert(!(model.rows[i][sample_index.0 as int] is None));
        }
    }
    if model.stats(sample_index) is Some {
        lemma_min_max_average(cpu_deltas(column));
        lemma_min_max_average(gpu_deltas(column));
        assert forall|i: int| 0 <= i < SAMPLES_RING_CAPACITY implies #[trigger] row_within_bounds(
            model,
            sample_index,
            i,
        ) by {
            assert(cpu_deltas(column)[i] == model.rows[i][sample_index.0 as int]->0.cpu.spec_delta());
            assert(gpu_deltas(column)[i] == model.rows[i][sample_index.0 as int]->0.gpu.spec_delta());
        }
    }
}

/// After a run has ended and the next has begun, no sample has a resolved span and no
/// registered sample has statistics, as in a context that has measured nothing yet: the
/// frame index is zero, every frame record is empty, and every window entry is unresolved.
pub proof fn lemma_end_run_resets(model: ContextModel, next_run: RunIndex, sample_index: SampleIndex)
    requires
        model.wf(),
    ensures
        model.end_run().begin_run(next_run).wf(),
        model.end_run().begin_run(next_run).frame_index == FrameIndex(0),
        model.end_run().begin_run(next_run).sample(sample_index) is None,
        model.end_run().begin_run(next_run).sample(sample_index) == ContextModel::initial(
            model.epoch,
            model.recording,
        ).sample(sample_index),
        forall|i: int, s: int|
            0 <= i < SAMPLES_RING_CAPACITY && 0 <= s < model.sample_count ==> (
            #[trigger] model.end_run().begin_run(next_run).rows[i][s]) is None,
        sample_index.0 < model.sample_count ==> model.end_run().begin_run(next_run).stats(sample_index) is None,
        forall|i: int|
            0 <= i < FRAME_CONTEXT_RING_CAPACITY ==> {
                let frame = #[trigger] model.end_run().begin_run(next_run).frames[i];
                frame.events.len() == 0 && frame.profilers_used == 0
            },
{
    let post = model.end_run().begin_run(next_run);
    assert forall|i: int| 0 <= i < post.frames.len() implies (#[trigger] post.frames[i]).wf() by {
        assert(post.frames[i] == model.frames[i].reset());
    }
    if sample_index.0 < model.sample_count {
        assert(post.column(sample_index)[0] is None);
    }
}

} // verus!
