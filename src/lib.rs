//! Scheduling-latency measurement engine: timestamp arithmetic, per-thread
//! latency statistics, the per-thread sampling state machine, the
//! real-time environment setup decisions and the run orchestrator.
pub mod env;
pub mod run;
pub mod sampler;
pub mod stats;
pub mod summary;
pub mod timer;
