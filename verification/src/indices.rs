//! Strongly typed counters for samples, runs, frames and profiler slots.
use vstd::prelude::*;

verus! {

/// Permanent position of a registered sample in the name registry.
#[derive(Debug, Clone, Copy, PartialEq, Eq, Structural, Hash)]
pub struct SampleIndex(pub usize);

impl SampleIndex {
    pub fn from_usize(value: usize) -> (index: Self)
        ensures
            index.0 == value,
    {
        SampleIndex(value)
    }

    pub fn to_usize(&self) -> (value: usize)
        ensures
            value == self.0,
    {
        self.0
    }
}

/// Number of a measurement run; grows by one each time a run ends.
#[derive(Debug, Clone, Copy, PartialEq, Eq, Structural, Hash)]
pub struct RunIndex(pub usize);

impl RunIndex {
    pub fn from_usize(value: usize) -> (index: Self)
        ensures
            index.0 == value,
    {
        RunIndex(value)
    }

    pub fn to_usize(&self) -> (value: usize)
        ensures
            value == self.0,
    {
        self.0
    }

    /// Advances to the next run.
    pub fn increment(&mut self)
        requires
            old(self).0 < usize::MAX,
        ensures
            final(self).0 == old(self).0 + 1,
    {
        self.0 = self.0 + 1;
    }
}

/// Number of a frame within the open run.
#[derive(Debug, Clone, Copy, PartialEq, Eq, Structural, Hash)]
pub struct FrameIndex(pub usize);

impl FrameIndex {
    pub fn from_usize(value: usize) -> (index: Self)
        ensures
            index.0 == value,
    {
        FrameIndex(value)
    }

    pub fn to_usize(&self) -> (value: usize)
        ensures
            value == self.0,
    {
        self.0
    }

    /// Advances to the next frame.
    pub fn increment(&mut self)
        requires
            old(self).0 < usize::MAX,
        ensures
            final(self).0 == old(self).0 + 1,
    {
        self.0 = self.0 + 1;
    }
}

/// Handle of the profiler slot that a `start` call drove; handed back to `stop`.
#[derive(Debug, Clone, Copy, PartialEq, Eq, Structural, Hash)]
pub struct ProfilerIndex(pub usize);

} // verus!
