//! A benchmarking harness for pluggable zero-knowledge proving systems.
//!
//! The harness drives a proving system through its lifecycle (setup,
//! preprocessing, repeated timed proving, verification) and records the
//! average proving latency, one line per run, in a per-system output file.

pub mod clock;
pub mod driver;
pub mod output;
pub mod registry;
pub mod sampling;

pub use driver::BenchError;
pub use driver::Circuit;
pub use driver::ProvingSystem;
pub use driver::bench_plonkish_backend;
pub use output::IoError;
pub use output::MemorySink;
pub use output::OutputSink;
pub use registry::System;
pub use registry::output_dir;
pub use sampling::SampleError;
pub use sampling::format_record;
pub use sampling::sample;
pub use sampling::sample_size;
