//! Frame-latency-tolerant CPU/GPU profiling core for a real-time render loop.
pub mod context;
pub mod events;
pub mod frame;
pub mod indices;
pub mod laws;
pub mod model;
pub mod profiler;
pub mod samples;
pub mod scene_file;
pub mod stats;
pub mod time_span;
pub mod writer;
