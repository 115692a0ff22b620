use frame_profiler::events::FrameEvent;
use frame_profiler::frame::{
    AllocBuffer, BufferView, FrameContext, FrameContextRing, FRAME_CONTEXT_RING_CAPACITY,
    INITIAL_SCRATCH_BYTE_COUNT,
};
use frame_profiler::indices::{FrameIndex, ProfilerIndex, RunIndex, SampleIndex};
use frame_profiler::profiler::State;
use frame_profiler::samples::{SamplesRing, SAMPLES_RING_CAPACITY};
use frame_profiler::stats::summarize;
use frame_profiler::time_span::{GpuCpuTimeSpan, TimeSpan};

fn span(cpu_begin: u64, cpu_end: u64, gpu_begin: u64, gpu_end: u64) -> GpuCpuTimeSpan {
    GpuCpuTimeSpan {
        gpu: TimeSpan { begin: gpu_begin, end: gpu_end },
        cpu: TimeSpan { begin: cpu_begin, end: cpu_end },
    }
}

#[test]
fn indices_round_trip_and_increment() {
    assert_eq!(SampleIndex::from_usize(4).to_usize(), 4);
    let mut run = RunIndex::from_usize(0);
    run.increment();
    assert_eq!(run.to_usize(), 1);
    let mut frame = FrameIndex::from_usize(41);
    frame.increment();
    assert_eq!(frame, FrameIndex(42));
}

#[test]
fn capacities_are_three_and_nine() {
    assert_eq!(FRAME_CONTEXT_RING_CAPACITY, 3);
    assert_eq!(SAMPLES_RING_CAPACITY, 9);
}

#[test]
fn every_row_grows_with_each_sample() {
    let mut ring = SamplesRing::new();
    assert_eq!(ring.ring.len(), 9);
    for expected in 0..5usize {
        for row in ring.ring.iter() {
            assert_eq!(row.len(), expected);
        }
        let index = ring.add_sample();
        assert_eq!(index, SampleIndex(expected));
        assert_eq!(ring.sample_count, expected + 1);
        for row in ring.ring.iter() {
            assert_eq!(row.len(), expected + 1);
            assert_eq!(row[expected], None);
        }
    }
}

#[test]
fn samples_ring_is_indexed_modulo_capacity() {
    let mut ring = SamplesRing::new();
    let a = ring.add_sample();
    let b = ring.add_sample();
    ring.set(FrameIndex(11), b, Some(span(1, 2, 3, 4)));
    assert_eq!(ring.get(FrameIndex(2), b), Some(span(1, 2, 3, 4)));
    assert_eq!(ring.get(FrameIndex(20), b), Some(span(1, 2, 3, 4)));
    assert_eq!(ring.get(FrameIndex(2), a), None);
    assert_eq!(ring.get(FrameIndex(3), b), None);
}

#[test]
fn clear_forgets_every_entry_and_keeps_lengths() {
    let mut ring = SamplesRing::new();
    let a = ring.add_sample();
    let b = ring.add_sample();
    for frame in 0..9usize {
        ring.set(FrameIndex(frame), a, Some(span(0, 1, 0, 1)));
        ring.set(FrameIndex(frame), b, Some(span(0, 2, 0, 2)));
    }
    ring.clear();
    assert_eq!(ring.sample_count, 2);
    for row in ring.ring.iter() {
        assert_eq!(row.len(), 2);
        assert!(row.iter().all(|entry| entry.is_none()));
    }
}

#[test]
fn clear_row_touches_one_row_only() {
    let mut ring = SamplesRing::new();
    let a = ring.add_sample();
    ring.set(FrameIndex(4), a, Some(span(0, 1, 0, 1)));
    ring.set(FrameIndex(5), a, Some(span(0, 2, 0, 2)));
    ring.clear_row(FrameIndex(13));
    assert_eq!(ring.get(FrameIndex(4), a), None);
    assert_eq!(ring.get(FrameIndex(5), a), Some(span(0, 2, 0, 2)));
}

#[test]
fn scratch_buffer_hands_out_consecutive_blocks() {
    let mut buffer = AllocBuffer::with_capacity(16);
    assert_eq!(buffer.allocate(8), BufferView { byte_offset: 0, byte_count: 8 });
    assert_eq!(buffer.allocate(8), BufferView { byte_offset: 8, byte_count: 8 });
    assert_eq!(buffer.byte_capacity, 16);
    assert_eq!(buffer.allocate(4), BufferView { byte_offset: 16, byte_count: 4 });
    assert_eq!(buffer.byte_capacity, 20);
    assert_eq!(buffer.byte_cursor, 20);
    buffer.reset();
    assert_eq!(buffer, AllocBuffer { byte_capacity: 20, byte_cursor: 0 });
}

#[test]
fn frame_record_grows_pool_to_high_water_mark() {
    let mut frame = FrameContext::new();
    assert_eq!(frame.buffer.byte_capacity, INITIAL_SCRATCH_BYTE_COUNT);
    let a = frame.start_at(SampleIndex(0), 10);
    let b = frame.start_at(SampleIndex(1), 11);
    assert_eq!((a, b), (ProfilerIndex(0), ProfilerIndex(1)));
    frame.stop_at(b, 12);
    frame.stop_at(a, 13);
    assert_eq!(
        frame.events,
        vec![
            FrameEvent::BeginTimeSpan(SampleIndex(0)),
            FrameEvent::BeginTimeSpan(SampleIndex(1)),
            FrameEvent::EndTimeSpan,
            FrameEvent::EndTimeSpan,
        ]
    );
    assert_eq!(frame.profilers_used, 2);
    assert_eq!(frame.profilers[0].state(), State::Stopped { cpu_begin: 10, cpu_end: 13 });
    assert_eq!(frame.profilers[1].state(), State::Stopped { cpu_begin: 11, cpu_end: 12 });
    frame.reset();
    assert!(frame.events.is_empty());
    assert_eq!(frame.profilers_used, 0);
    assert_eq!(frame.profilers.len(), 2);
    assert_eq!(frame.buffer.byte_cursor, 0);
    let again = frame.start_at(SampleIndex(1), 20);
    assert_eq!(again, ProfilerIndex(0));
    assert_eq!(frame.profilers.len(), 2);
    assert_eq!(frame.profilers[0].state(), State::Started { cpu_begin: 20 });
}

#[test]
fn frame_ring_is_indexed_modulo_capacity() {
    let mut ring = FrameContextRing::new();
    assert_eq!(ring.slots.len(), 3);
    ring.slots[1].record(FrameEvent::EndTimeSpan);
    assert_eq!(ring.index(FrameIndex(4)).events, vec![FrameEvent::EndTimeSpan]);
    assert!(ring.index(FrameIndex(3)).events.is_empty());
    ring.reset();
    assert!(ring.index(FrameIndex(4)).events.is_empty());
}

#[test]
fn summarize_gives_floor_average_min_and_max() {
    assert_eq!(summarize(&vec![5, 1, 9, 2]), (4, 1, 9));
    assert_eq!(summarize(&vec![7]), (7, 7, 7));
    assert_eq!(summarize(&vec![u64::MAX, u64::MAX, u64::MAX - 3]), (u64::MAX - 1, u64::MAX - 3, u64::MAX));
}
