use frame_profiler::context::ProfilingContext;
use frame_profiler::events::{
    BasicBuffer, ClusterBuffer, FrameEvent, MeasurementEvent, ProfilingConfiguration, Readback,
    BASIC_BUFFER_BYTE_COUNT, CLUSTER_BUFFER_BYTE_COUNT,
};
use frame_profiler::frame::BufferView;
use frame_profiler::indices::{FrameIndex, ProfilerIndex, RunIndex, SampleIndex};
use frame_profiler::stats::GpuCpuStats;
use frame_profiler::time_span::{GpuCpuTimeSpan, TimeSpan};

fn configuration(record_events: bool) -> ProfilingConfiguration {
    ProfilingConfiguration {
        name: None,
        record_events,
        record_frames: false,
        display: false,
        hide: Vec::new(),
    }
}

fn context(record_events: bool) -> ProfilingContext {
    ProfilingContext::new(std::time::Instant::now(), &configuration(record_events))
}

/// Readbacks for a frame that recorded one start/stop pair.
fn one_span(gpu_begin: u64, gpu_end: u64) -> Vec<Readback> {
    vec![Readback::Counters(TimeSpan { begin: gpu_begin, end: gpu_end }), Readback::Nothing]
}

/// Runs frame `frame` of the draw scenario: CPU span [100 f, 100 f + f + 1], and for the
/// frame that is resolved, GPU span [10 p, 10 p + 2 p + 3].
fn draw_frame(context: &mut ProfilingContext, draw: SampleIndex, frame: usize) {
    let readbacks = if frame >= 3 {
        let past = (frame - 3) as u64;
        one_span(10 * past, 10 * past + 2 * past + 3)
    } else {
        Vec::new()
    };
    context.begin_frame(FrameIndex(frame), &readbacks);
    let handle = context.start_at(draw, 100 * frame as u64);
    context.stop_at(handle, 100 * frame as u64 + frame as u64 + 1);
}

fn draw_span(frame: u64) -> GpuCpuTimeSpan {
    GpuCpuTimeSpan {
        gpu: TimeSpan { begin: 10 * frame, end: 10 * frame + 2 * frame + 3 },
        cpu: TimeSpan { begin: 100 * frame, end: 100 * frame + frame + 1 },
    }
}

#[test]
fn new_context_is_before_its_first_run() {
    let context = context(false);
    assert_eq!(context.run_index, RunIndex(0));
    assert_eq!(context.frame_index, FrameIndex(0));
    assert!(!context.run_started);
    assert!(!context.frame_started);
    assert!(context.sample_names.is_empty());
    assert!(!context.time_sensitive());
    assert_eq!(context.samples_ring.ring.len(), 9);
    assert_eq!(context.frame_context_ring.slots.len(), 3);
}

#[test]
fn add_sample_assigns_consecutive_indices() {
    let mut context = context(false);
    assert_eq!(context.add_sample("main_depth"), SampleIndex(0));
    assert_eq!(context.add_sample("main_basic"), SampleIndex(1));
    assert_eq!(context.sample_names, vec!["main_depth", "main_basic"]);
    for row in context.samples_ring.ring.iter() {
        assert_eq!(row.len(), 2);
    }
}

#[test]
fn draw_scenario_sample_and_stats_become_available() {
    let mut context = context(false);
    let draw = context.add_sample("draw");
    context.begin_run(RunIndex(0));
    assert_eq!(context.run_index(), RunIndex(0));
    for frame in 0..12usize {
        draw_frame(&mut context, draw, frame);
        if frame < 3 {
            assert_eq!(context.sample(draw), None);
        } else {
            assert_eq!(context.sample(draw), Some(draw_span(frame as u64 - 3)));
        }
        if frame < 11 {
            assert_eq!(context.stats(draw), None);
        } else {
            // Frames 0..=8 are resolved: CPU elapsed 1..=9, GPU elapsed 3, 5, .., 19.
            assert_eq!(
                context.stats(draw),
                Some(GpuCpuStats {
                    gpu_elapsed_avg: 11,
                    gpu_elapsed_min: 3,
                    gpu_elapsed_max: 19,
                    cpu_elapsed_avg: 5,
                    cpu_elapsed_min: 1,
                    cpu_elapsed_max: 9,
                })
            );
        }
        context.end_frame(FrameIndex(frame));
        assert_eq!(context.frame_index, FrameIndex(frame + 1));
    }
}

#[test]
fn stats_lie_between_min_and_max() {
    let mut context = context(false);
    let draw = context.add_sample("draw");
    context.begin_run(RunIndex(0));
    for frame in 0..14usize {
        draw_frame(&mut context, draw, frame);
        context.end_frame(FrameIndex(frame));
    }
    let stats = context.stats(draw).unwrap();
    assert!(stats.cpu_elapsed_min <= stats.cpu_elapsed_avg);
    assert!(stats.cpu_elapsed_avg <= stats.cpu_elapsed_max);
    assert!(stats.gpu_elapsed_min <= stats.gpu_elapsed_avg);
    assert!(stats.gpu_elapsed_avg <= stats.gpu_elapsed_max);
    // Frames 2..=10 are in the window.
    assert_eq!((stats.cpu_elapsed_min, stats.cpu_elapsed_avg, stats.cpu_elapsed_max), (3, 7, 11));
    assert_eq!((stats.gpu_elapsed_min, stats.gpu_elapsed_avg, stats.gpu_elapsed_max), (7, 15, 23));
}

#[test]
fn sample_registered_late_has_no_stats_until_window_refills() {
    let mut context = context(false);
    let draw = context.add_sample("draw");
    context.begin_run(RunIndex(0));
    for frame in 0..12usize {
        draw_frame(&mut context, draw, frame);
        context.end_frame(FrameIndex(frame));
    }
    assert!(context.stats(draw).is_some());
    let late = context.add_sample("late");
    assert_eq!(context.stats(late), None);
    assert!(context.stats(draw).is_some());
}

#[test]
fn sample_not_begun_in_a_frame_is_cleared() {
    let mut context = context(false);
    let draw = context.add_sample("draw");
    let idle = context.add_sample("idle");
    context.begin_run(RunIndex(0));
    for frame in 0..4usize {
        draw_frame(&mut context, draw, frame);
        context.end_frame(FrameIndex(frame));
    }
    assert_eq!(context.samples_ring.get(FrameIndex(0), draw), Some(draw_span(0)));
    assert_eq!(context.samples_ring.get(FrameIndex(0), idle), None);
}

#[test]
fn end_run_resets_frames_and_window() {
    let mut context = context(false);
    let draw = context.add_sample("draw");
    context.begin_run(RunIndex(0));
    for frame in 0..12usize {
        draw_frame(&mut context, draw, frame);
        context.end_frame(FrameIndex(frame));
    }
    assert!(context.stats(draw).is_some());
    context.end_run(RunIndex(0));
    assert_eq!(context.run_index, RunIndex(1));
    assert!(!context.run_started);
    assert_eq!(context.frame_index, FrameIndex(0));
    context.begin_run(RunIndex(1));
    assert!(context.time_sensitive());
    assert_eq!(context.sample(draw), None);
    assert_eq!(context.stats(draw), None);
    for slot in context.frame_context_ring.slots.iter() {
        assert!(slot.events.is_empty());
        assert_eq!(slot.profilers_used, 0);
    }
    // The new run behaves as the first did.
    for frame in 0..4usize {
        draw_frame(&mut context, draw, frame);
        if frame < 3 {
            assert_eq!(context.sample(draw), None);
        } else {
            assert_eq!(context.sample(draw), Some(draw_span(0)));
        }
        context.end_frame(FrameIndex(frame));
    }
}

#[test]
fn events_expose_the_previous_frame() {
    let mut context = context(false);
    let draw = context.add_sample("draw");
    context.begin_run(RunIndex(0));
    assert!(context.events(FrameIndex(0)).is_none());
    draw_frame(&mut context, draw, 0);
    context.end_frame(FrameIndex(0));
    let log = context.events(FrameIndex(1)).unwrap();
    assert_eq!(log.to_vec(), vec![FrameEvent::BeginTimeSpan(draw), FrameEvent::EndTimeSpan]);
}

#[test]
fn nested_spans_use_slots_in_start_order() {
    let mut context = context(false);
    let outer = context.add_sample("outer");
    let inner = context.add_sample("inner");
    context.begin_run(RunIndex(0));
    for frame in 0..4usize {
        let readbacks = if frame == 3 {
            vec![
                Readback::Counters(TimeSpan { begin: 1, end: 9 }),
                Readback::Counters(TimeSpan { begin: 2, end: 5 }),
                Readback::Nothing,
                Readback::Nothing,
            ]
        } else {
            Vec::new()
        };
        context.begin_frame(FrameIndex(frame), &readbacks);
        let a = context.start_at(outer, 10);
        let b = context.start_at(inner, 20);
        assert_eq!((a, b), (ProfilerIndex(0), ProfilerIndex(1)));
        context.stop_at(b, 30);
        context.stop_at(a, 40);
        if frame == 3 {
            assert_eq!(
                context.sample(outer),
                Some(GpuCpuTimeSpan {
                    gpu: TimeSpan { begin: 1, end: 9 },
                    cpu: TimeSpan { begin: 10, end: 40 },
                })
            );
            assert_eq!(
                context.sample(inner),
                Some(GpuCpuTimeSpan {
                    gpu: TimeSpan { begin: 2, end: 5 },
                    cpu: TimeSpan { begin: 20, end: 30 },
                })
            );
        }
        context.end_frame(FrameIndex(frame));
    }
}

#[test]
fn trace_is_queued_in_emission_order() {
    let mut context = context(true);
    let draw = context.add_sample("draw");
    context.begin_run(RunIndex(0));
    for frame in 0..4usize {
        draw_frame(&mut context, draw, frame);
        context.end_frame(FrameIndex(frame));
    }
    context.end_run(RunIndex(0));
    let trace = context.take_events();
    assert_eq!(trace.len(), 7);
    assert!(matches!(&trace[0], MeasurementEvent::SampleName(SampleIndex(0), name) if name == "draw"));
    assert!(matches!(trace[1], MeasurementEvent::BeginRun(RunIndex(0))));
    assert!(matches!(trace[2], MeasurementEvent::BeginFrame(FrameIndex(0))));
    match &trace[3] {
        MeasurementEvent::BeginTimeSpan(index, span) => {
            assert_eq!(*index, draw);
            assert_eq!(*span, draw_span(0));
        }
        other => panic!("unexpected record {:?}", other),
    }
    assert!(matches!(trace[4], MeasurementEvent::EndTimeSpan));
    assert!(matches!(trace[5], MeasurementEvent::EndFrame));
    assert!(matches!(trace[6], MeasurementEvent::EndRun));
    assert!(context.take_events().is_empty());
}

#[test]
fn nothing_is_queued_when_recording_is_off() {
    let mut context = context(false);
    let draw = context.add_sample("draw");
    context.begin_run(RunIndex(0));
    for frame in 0..5usize {
        draw_frame(&mut context, draw, frame);
        context.end_frame(FrameIndex(frame));
    }
    context.end_run(RunIndex(0));
    assert!(context.take_events().is_empty());
}

#[test]
fn captured_blocks_are_logged_and_traced() {
    let mut context = context(true);
    context.begin_run(RunIndex(0));
    let mut cluster = ClusterBuffer::default();
    cluster.data[3][4] = 77;
    let basic = BasicBuffer { shading_ops: 12, lighting_ops: 34 };
    for frame in 0..4usize {
        let readbacks = if frame == 3 {
            vec![Readback::Cluster(cluster), Readback::Basic(basic)]
        } else {
            Vec::new()
        };
        context.begin_frame(FrameIndex(frame), &readbacks);
        let first = context.record_cluster_buffer();
        assert_eq!(first, BufferView { byte_offset: 0, byte_count: CLUSTER_BUFFER_BYTE_COUNT });
        let second = context.begin_basic_buffer();
        assert_eq!(
            second,
            BufferView { byte_offset: CLUSTER_BUFFER_BYTE_COUNT, byte_count: BASIC_BUFFER_BYTE_COUNT }
        );
        context.end_basic_buffer(second);
        context.end_frame(FrameIndex(frame));
    }
    assert_eq!(
        context.events(FrameIndex(3)).unwrap().to_vec(),
        vec![
            FrameEvent::RecordClusterBuffer { byte_offset: 0 },
            FrameEvent::RecordBasicBuffer { byte_offset: 4096 },
        ]
    );
    let trace = context.take_events();
    assert_eq!(trace.len(), 5);
    assert!(matches!(trace[1], MeasurementEvent::BeginFrame(FrameIndex(0))));
    match &trace[2] {
        MeasurementEvent::RecordClusterBuffer(buffer) => assert_eq!(buffer.data[3][4], 77),
        other => panic!("unexpected record {:?}", other),
    }
    match &trace[3] {
        MeasurementEvent::RecordBasicBuffer(buffer) => {
            assert_eq!((buffer.shading_ops, buffer.lighting_ops), (12, 34));
        }
        other => panic!("unexpected record {:?}", other),
    }
    assert!(matches!(trace[4], MeasurementEvent::EndFrame));
}

#[test]
fn clock_driven_spans_are_resolved() {
    let mut context = context(false);
    let draw = context.add_sample("draw");
    context.begin_run(RunIndex(0));
    for frame in 0..4usize {
        let readbacks = if frame == 3 { one_span(5, 8) } else { Vec::new() };
        context.begin_frame(FrameIndex(frame), &readbacks);
        let handle = context.start(draw);
        context.stop(handle);
        context.end_frame(FrameIndex(frame));
    }
    context.begin_frame(FrameIndex(4), &one_span(6, 9));
    let span = context.sample(draw).unwrap();
    assert_eq!(span.gpu, TimeSpan { begin: 6, end: 9 });
    assert!(span.cpu.end >= span.cpu.begin);
}

#[test]
fn open_slot_cannot_be_started_again() {
    let mut context = context(false);
    let draw = context.add_sample("draw");
    context.begin_run(RunIndex(0));
    context.begin_frame(FrameIndex(0), &Vec::new());
    assert!(context.can_start());
    let handle = context.start_at(draw, 1);
    assert!(context.can_stop(handle));
    assert!(!context.can_stop(ProfilerIndex(1)));
    // The run ends with the slot still open; the next run finds it so.
    context.end_frame(FrameIndex(0));
    context.end_run(RunIndex(0));
    context.begin_run(RunIndex(1));
    context.begin_frame(FrameIndex(0), &Vec::new());
    assert!(!context.can_start());
    assert!(context.can_stop(handle));
    context.stop_at(handle, 2);
    assert!(context.can_start());
    assert!(!context.can_stop(handle));
}

#[test]
fn frame_begins_only_in_turn_and_with_matching_readbacks() {
    let mut context = context(false);
    let draw = context.add_sample("draw");
    assert!(!context.can_begin_frame(FrameIndex(0), &Vec::new()));
    context.begin_run(RunIndex(0));
    assert!(context.can_begin_frame(FrameIndex(0), &Vec::new()));
    assert!(!context.can_begin_frame(FrameIndex(1), &Vec::new()));
    context.begin_frame(FrameIndex(0), &Vec::new());
    assert!(!context.can_begin_frame(FrameIndex(0), &Vec::new()));
    // Frame 0 begins the same sample twice and leaves one slot open.
    let first = context.start_at(draw, 1);
    context.stop_at(first, 2);
    let second = context.start_at(draw, 3);
    context.end_frame(FrameIndex(0));
    for frame in 1..3usize {
        context.begin_frame(FrameIndex(frame), &Vec::new());
        context.end_frame(FrameIndex(frame));
    }
    let counters = Readback::Counters(TimeSpan { begin: 0, end: 1 });
    let twice = vec![counters, Readback::Nothing, counters];
    assert!(!context.can_begin_frame(FrameIndex(3), &twice));
    assert!(!context.can_begin_frame(FrameIndex(3), &Vec::new()));
    // Frame 1 recorded nothing, so frame 4 would begin with no readbacks; frame 3 cannot.
    assert_eq!(second, ProfilerIndex(1));
}

#[test]
fn frame_with_unregistered_sample_cannot_be_replayed() {
    let mut context = context(false);
    let draw = context.add_sample("draw");
    context.begin_run(RunIndex(0));
    for frame in 0..3usize {
        context.begin_frame(FrameIndex(frame), &Vec::new());
        let handle = context.start_at(if frame == 0 { SampleIndex(5) } else { draw }, 1);
        context.stop_at(handle, 2);
        context.end_frame(FrameIndex(frame));
    }
    assert!(!context.can_begin_frame(FrameIndex(3), &one_span(0, 1)));
    assert!(!context.can_begin_frame(FrameIndex(3), &vec![Readback::Nothing, Readback::Nothing]));
}
