//! What is recorded during a frame, and the trace records made from it.
use vstd::prelude::*;
use crate::indices::{FrameIndex, RunIndex, SampleIndex};
use crate::time_span::GpuCpuTimeSpan;

verus! {

/// `std::path::PathBuf`, carried through as an opaque value.
#[verifier::external_type_specification]
#[verifier::external_body]
pub struct ExPathBuf(std::path::PathBuf);

/// Options of the profiler. None of them changes what is measured.
#[derive(Debug, Clone, PartialEq)]
pub struct ProfilingConfiguration {
    /// Where the profile is kept, if it has a place of its own.
    pub name: Option<std::path::PathBuf>,
    /// Queue a trace record for every measurement event.
    pub record_events: bool,
    /// Keep the per-frame event logs available for inspection.
    pub record_frames: bool,
    /// Present live statistics to a viewer.
    pub display: bool,
    /// Names of samples that a viewer should not show.
    pub hide: Vec<String>,
}

/// Byte size of a cluster counter block in the scratch buffer.
pub const CLUSTER_BUFFER_BYTE_COUNT: usize = 4096;

/// Byte size of a basic counter block in the scratch buffer.
pub const BASIC_BUFFER_BYTE_COUNT: usize = 8;

/// One instrumentation call made during a frame, in call order.
#[derive(Debug, Clone, Copy, PartialEq, Eq, Structural)]
pub enum FrameEvent {
    BeginTimeSpan(SampleIndex),
    EndTimeSpan,
    RecordClusterBuffer { byte_offset: usize },
    RecordBasicBuffer { byte_offset: usize },
}

/// Snapshot of the per-cluster GPU counters.
#[derive(Debug, Clone, Copy, Default)]
pub struct ClusterBuffer {
    pub data: [[u32; 32]; 32],
}

/// Snapshot of the frame-wide GPU counters.
#[derive(Debug, Clone, Copy, Default)]
pub struct BasicBuffer {
    pub shading_ops: u32,
    pub lighting_ops: u32,
}

/// One record of the trace that is persisted when event recording is on.
#[derive(Debug, Clone)]
pub enum MeasurementEvent {
    SampleName(SampleIndex, String),
    BeginRun(RunIndex),
    EndRun,
    BeginFrame(FrameIndex),
    EndFrame,
    BeginTimeSpan(SampleIndex, GpuCpuTimeSpan),
    EndTimeSpan,
    RecordClusterBuffer(ClusterBuffer),
    RecordBasicBuffer(BasicBuffer),
}

/// What was read back from the GPU for one recorded frame event.
#[derive(Debug, Clone, Copy)]
pub enum Readback {
    /// Nothing is read back for the end of a time span.
    Nothing,
    /// The two counter values of the profiler slot that a time span used.
    Counters(crate::time_span::TimeSpan),
    /// The block that a cluster counter capture copied into the scratch buffer.
    Cluster(ClusterBuffer),
    /// The block that a basic counter capture copied into the scratch buffer.
    Basic(BasicBuffer),
}

/// Whether `readback` is the kind of data that `event` asks for.
pub open spec fn readback_matches(event: FrameEvent, readback: Readback) -> bool {
    match event {
        FrameEvent::BeginTimeSpan(_) => readback is Counters,
        FrameEvent::EndTimeSpan => readback is Nothing,
        FrameEvent::RecordClusterBuffer { .. } => readback is Cluster,
        FrameEvent::RecordBasicBuffer { .. } => readback is Basic,
    }
}

} // verus!
