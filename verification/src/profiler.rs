//! A reusable measurement slot that tracks one open or closed interval at a time.
use vstd::prelude::*;
use crate::time_span::{GpuCpuTimeSpan, TimeSpan};

verus! {

/// Reference point of the CPU clock; all CPU ticks are nanoseconds since it.
pub type Epoch = std::time::Instant;

/// `std::time::Instant`, carried through as an opaque value.
#[verifier::external_type_specification]
#[verifier::external_body]
pub struct ExInstant(std::time::Instant);

/// Where a slot stands in its start / stop / read cycle.
#[derive(Debug, Clone, Copy, PartialEq, Eq, Structural)]
pub enum State {
    Empty,
    Started { cpu_begin: u64 },
    Stopped { cpu_begin: u64, cpu_end: u64 },
}

/// The span that a read of a slot in state `state` yields, given the GPU counter values.
pub open spec fn read_result(state: State, gpu: TimeSpan) -> Option<GpuCpuTimeSpan> {
    match state {
        State::Stopped { cpu_begin, cpu_end } => Some(
            GpuCpuTimeSpan { gpu, cpu: TimeSpan { begin: cpu_begin, end: cpu_end } },
        ),
        _ => None,
    }
}

/// The state that `stop` at CPU tick `cpu_now` leads to from `state`.
pub open spec fn stopped_from(state: State, cpu_now: u64) -> State {
    match state {
        State::Started { cpu_begin } => State::Stopped { cpu_begin, cpu_end: cpu_now },
        _ => state,
    }
}

/// One measurement slot. The two GPU counters that belong to it are kept by the caller.
#[derive(Debug)]
pub struct TimeSpanProfiler {
    pub state: State,
}

/// `Instant::elapsed`: the time that has passed since `epoch` was taken. Nothing is
/// claimed of the value: it is a clock reading.
#[verifier::external_body]
fn elapsed_since(epoch: &Epoch) -> (elapsed: core::time::Duration) {
    epoch.elapsed()
}

/// `Duration::as_nanos`: the duration in whole nanoseconds. Nothing is claimed of the value.
pub assume_specification[ core::time::Duration::as_nanos ](duration: &core::time::Duration) -> (nanos: u128);

/// Nanoseconds elapsed since `epoch`, cut to their low 64 bits.
pub(crate) fn elapsed_nanos(epoch: &Epoch) -> (nanos: u64) {
    let elapsed = elapsed_since(epoch);
    let nanos: u128 = elapsed.as_nanos();
    #[verifier::truncate]
    (nanos as u64)
}

impl TimeSpanProfiler {
    /// A fresh slot, holding no interval.
    pub fn new() -> (profiler: Self)
        ensures
            profiler.state == State::Empty,
    {
        TimeSpanProfiler { state: State::Empty }
    }

    /// The current state of the slot.
    pub fn state(&self) -> (state: State)
        ensures
            state == self.state,
    {
        self.state
    }

    /// Opens an interval at CPU tick `cpu_now`. An unread closed interval is discarded.
    /// A slot that is already open must be stopped first.
    pub fn start_at(&mut self, cpu_now: u64)
        requires
            !(old(self).state is Started),
        ensures
            final(self).state == (State::Started { cpu_begin: cpu_now }),
    {
        self.state = State::Started { cpu_begin: cpu_now };
    }

    /// Opens an interval at the current reading of the CPU clock.
    pub fn start(&mut self, epoch: Epoch)
        requires
            !(old(self).state is Started),
        ensures
            final(self).state is Started,
    {
        let cpu_now: u64 = elapsed_nanos(&epoch);
        self.start_at(cpu_now);
    }

    /// Closes the open interval at CPU tick `cpu_now`. Only an open slot can be stopped.
    pub fn stop_at(&mut self, cpu_now: u64)
        requires
            old(self).state is Started,
        ensures
            final(self).state == stopped_from(old(self).state, cpu_now),
            final(self).state == (State::Stopped {
                cpu_begin: old(self).state->Started_cpu_begin,
                cpu_end: cpu_now,
            }),
    {
        match self.state {
            State::Started { cpu_begin } => {
                self.state = State::Stopped { cpu_begin, cpu_end: cpu_now };
            },
            _ => {},
        }
    }

    /// Closes the open interval at the current reading of the CPU clock.
    pub fn stop(&mut self, epoch: Epoch)
        requires
            old(self).state is Started,
        ensures
            final(self).state is Stopped,
            final(self).state->Stopped_cpu_begin == old(self).state->Started_cpu_begin,
    {
        let cpu_now: u64 = elapsed_nanos(&epoch);
        self.stop_at(cpu_now);
    }

    /// Takes the closed interval out of the slot, pairing it with the GPU counter values
    /// `gpu`, and leaves the slot empty. An empty slot yields nothing. An open slot
    /// cannot be read.
    pub fn read(&mut self, gpu: TimeSpan) -> (span: Option<GpuCpuTimeSpan>)
        requires
            !(old(self).state is Started),
        ensures
            final(self).state == State::Empty,
            span == read_result(old(self).state, gpu),
            old(self).state is Empty <==> span is None,
    {
        match self.state {
            State::Stopped { cpu_begin, cpu_end } => {
                self.state = State::Empty;
                Some(GpuCpuTimeSpan { gpu, cpu: TimeSpan { begin: cpu_begin, end: cpu_end } })
            },
            _ => None,
        }
    }
}

/// A slot that is started at `cpu_begin`, stopped at `cpu_end` and then read yields a
/// span whose elapsed time on each clock is `end - begin`, or zero where the counter
/// wrapped; the read leaves the slot empty, so that a second read yields nothing.
pub proof fn lemma_start_stop_read(cpu_begin: u64, cpu_end: u64, gpu: TimeSpan, gpu_again: TimeSpan)
    ensures
        ({
            let started = State::Started { cpu_begin };
            let stopped = stopped_from(started, cpu_end);
            let span = read_result(stopped, gpu);
            &&& span is Some
            &&& span->0.cpu.spec_delta() == (if cpu_end >= cpu_begin {
                cpu_end - cpu_begin
            } else {
                0
            })
            &&& span->0.gpu.spec_delta() == (if gpu.end >= gpu.begin {
                gpu.end - gpu.begin
            } else {
                0
            })
            &&& span->0.cpu.spec_delta() >= 0
            &&& span->0.gpu.spec_delta() >= 0
            &&& read_result(State::Empty, gpu_again) is None
        }),
{
}

} // verus!
