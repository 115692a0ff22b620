[package]
name = "frame_profiler"
version = "0.1.0"
edition = "2021"
publish = false

[dependencies]
bincode = "1"
serde = { version = "1", features = ["derive"] }
cgmath = "0.17"
num-traits = "0.2"
gl = "0.14"
