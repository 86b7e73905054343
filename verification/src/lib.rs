//! A micro-benchmark execution harness.
//!
//! A user-supplied workload is run concurrently across a configured set of
//! thread counts for a fixed wall-clock window per sample.  The harness
//! coordinates the worker threads through a spin barrier, collects optional
//! process-wide measurements around each window, aggregates the workers'
//! throughput, and assembles the whole run into one result record.
//!
//! The verified core holds the coordination and bookkeeping logic: the
//! barrier context handed to each worker, the schedule of workload
//! invocations, the per-sample window protocol, and the aggregation of
//! results.  Thread spawning, sleeping, clocks and the individual
//! measurement drivers live outside the library and drive it through the
//! contracts stated here.

pub mod bench;
pub mod config;
pub mod context;
pub mod env;
pub mod json;
pub mod metrics;
pub mod report;
pub mod sample;
pub mod schedule;

pub use bench::BenchConfig;
pub use bench::BenchResult;
pub use bench::ShumaiBench;
pub use config::Foo;
pub use context::Context;
pub use env::RunnerEnv;
pub use metrics::DiskUsage;
pub use metrics::Measure;
pub use metrics::MeasurementFlags;
pub use metrics::MeasurementKind;
pub use report::BenchValue;
pub use report::LoadResults;
pub use report::ShumaiResult;
pub use report::ThreadResult;
pub use sample::SamplePhase;
pub use sample::SampleSession;
pub use schedule::Step;
