//! The core of a load-generation harness for concurrent key-value stores.
//!
//! The harness drives a store through standard workload mixes and reports
//! the throughput it achieved. This crate holds the rules of such a run; a
//! driver around it parses the command line, starts the worker threads,
//! reads the clock and prints the report.
//!
//! - [`workload`]: the six workload mixes, and the choice of an operation
//!   from a uniform draw;
//! - [`sampler`]: the key distribution, and the mapping of popularity ranks
//!   to keys;
//! - [`rng`]: the worker's random source;
//! - [`record`]: the value block that is written for a key;
//! - [`store`]: the store, its load phase, and the handle that workers share;
//! - [`partition`]: the split of a phase's operations over its workers;
//! - [`worker`]: the loop that one worker runs, and its tally;
//! - [`config`]: the settings of a run and the errors that reject them;
//! - [`orchestrator`]: the sequence of load, warmup, settling and
//!   measurement for each workload;
//! - [`report`]: the throughput figure.

pub mod config;
pub mod orchestrator;
pub mod partition;
pub mod record;
pub mod report;
pub mod rng;
pub mod sampler;
pub mod store;
pub mod worker;
pub mod workload;
