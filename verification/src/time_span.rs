//! Tick intervals measured on the CPU clock and on the GPU counter.
use vstd::prelude::*;

verus! {

/// A half-open interval of tick counts on one clock.
#[derive(Debug, Clone, Copy, PartialEq, Eq, Structural, Default)]
pub struct TimeSpan {
    pub begin: u64,
    pub end: u64,
}

/// Elapsed ticks between `begin` and `end`, clamped at zero when the counter wrapped.
pub open spec fn elapsed_ticks(begin: u64, end: u64) -> u64 {
    if end >= begin {
        (end - begin) as u64
    } else {
        0
    }
}

impl TimeSpan {
    /// The elapsed ticks of this span as a mathematical value.
    pub open spec fn spec_delta(&self) -> u64 {
        elapsed_ticks(self.begin, self.end)
    }

    /// Elapsed ticks; zero rather than a failure when `end` lies before `begin`.
    #[verifier::when_used_as_spec(spec_delta)]
    pub fn delta(&self) -> (ticks: u64)
        ensures
            ticks == self.spec_delta(),
            self.end >= self.begin ==> ticks == self.end - self.begin,
            self.end < self.begin ==> ticks == 0,
    {
        self.end.saturating_sub(self.begin)
    }
}

/// One measured interval, on both the GPU counter and the CPU clock.
#[derive(Debug, Clone, Copy, PartialEq, Eq, Structural, Default)]
pub struct GpuCpuTimeSpan {
    pub gpu: TimeSpan,
    pub cpu: TimeSpan,
}

} // verus!
