use frame_profiler::profiler::{State, TimeSpanProfiler};
use frame_profiler::time_span::{GpuCpuTimeSpan, TimeSpan};

#[test]
fn delta_is_end_minus_begin() {
    let span = TimeSpan { begin: 100, end: 175 };
    assert_eq!(span.delta(), 75);
}

#[test]
fn delta_is_zero_when_counter_wrapped() {
    let span = TimeSpan { begin: u64::MAX - 3, end: 12 };
    assert_eq!(span.delta(), 0);
    let same = TimeSpan { begin: 7, end: 7 };
    assert_eq!(same.delta(), 0);
}

#[test]
fn new_slot_is_empty() {
    let profiler = TimeSpanProfiler::new();
    assert_eq!(profiler.state(), State::Empty);
}

#[test]
fn start_stop_read_yields_both_clocks() {
    let mut profiler = TimeSpanProfiler::new();
    profiler.start_at(10);
    assert_eq!(profiler.state(), State::Started { cpu_begin: 10 });
    profiler.stop_at(25);
    assert_eq!(profiler.state(), State::Stopped { cpu_begin: 10, cpu_end: 25 });
    let span = profiler.read(TimeSpan { begin: 100, end: 160 });
    assert_eq!(
        span,
        Some(GpuCpuTimeSpan {
            gpu: TimeSpan { begin: 100, end: 160 },
            cpu: TimeSpan { begin: 10, end: 25 },
        })
    );
    let span = span.unwrap();
    assert_eq!(span.cpu.delta(), 15);
    assert_eq!(span.gpu.delta(), 60);
    assert_eq!(profiler.state(), State::Empty);
}

#[test]
fn second_read_yields_nothing() {
    let mut profiler = TimeSpanProfiler::new();
    profiler.start_at(1);
    profiler.stop_at(2);
    assert!(profiler.read(TimeSpan { begin: 3, end: 4 }).is_some());
    assert_eq!(profiler.read(TimeSpan { begin: 5, end: 6 }), None);
    assert_eq!(profiler.state(), State::Empty);
}

#[test]
fn read_of_empty_slot_yields_nothing() {
    let mut profiler = TimeSpanProfiler::new();
    assert_eq!(profiler.read(TimeSpan { begin: 0, end: 9 }), None);
}

#[test]
fn wrapped_counters_read_as_zero_elapsed() {
    let mut profiler = TimeSpanProfiler::new();
    profiler.start_at(50);
    profiler.stop_at(20);
    let span = profiler.read(TimeSpan { begin: 900, end: 100 }).unwrap();
    assert_eq!(span.cpu.delta(), 0);
    assert_eq!(span.gpu.delta(), 0);
}

#[test]
fn started_slot_does_not_admit_a_second_start() {
    let mut profiler = TimeSpanProfiler::new();
    profiler.start_at(5);
    // A second start is admitted only from Empty or Stopped; the slot is neither.
    assert!(matches!(profiler.state(), State::Started { cpu_begin: 5 }));
    assert!(!matches!(profiler.state(), State::Empty | State::Stopped { .. }));
}

#[test]
fn restart_discards_unread_interval() {
    let mut profiler = TimeSpanProfiler::new();
    profiler.start_at(1);
    profiler.stop_at(4);
    profiler.start_at(10);
    assert_eq!(profiler.state(), State::Started { cpu_begin: 10 });
    profiler.stop_at(15);
    let span = profiler.read(TimeSpan { begin: 0, end: 1 }).unwrap();
    assert_eq!(span.cpu, TimeSpan { begin: 10, end: 15 });
}

#[test]
fn clock_driven_start_and_stop_keep_order() {
    let epoch = std::time::Instant::now();
    let mut profiler = TimeSpanProfiler::new();
    profiler.start(epoch);
    assert!(matches!(profiler.state(), State::Started { .. }));
    profiler.stop(epoch);
    let span = profiler.read(TimeSpan { begin: 0, end: 0 }).unwrap();
    assert!(span.cpu.end >= span.cpu.begin);
}
