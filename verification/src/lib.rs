//! Differencing engine for container resource statistics.
//!
//! A container runtime reports cumulative counters: CPU time, bytes moved per
//! network interface, bytes moved per block device. This crate turns two
//! consecutive samples of those counters into per-interval figures, and holds
//! the small state machine that pairs each sample with the one before it.
//!
//! - `sample`: the raw samples.
//! - `delta`: signed differences between unsigned counters.
//! - `totals`: sums over the entries of a sample.
//! - `metrics`: the figures derived from a pair of samples.
//! - `laws`: what holds of those figures for every pair.
//! - `driver`: the state machine that consumes a stream of samples.
//! - `record`: the textual form of the output.
//!
//! Everything here is exact integer arithmetic. The two figures that are
//! fractions, the CPU percentage and the memory in MiB, are handed out as
//! their integer parts (`CpuShare`, `mem_bytes`) for the caller to divide.

pub mod delta;
pub mod driver;
pub mod laws;
pub mod metrics;
pub mod record;
pub mod sample;
pub mod totals;

pub use delta::Delta;
pub use driver::{Action, Driver, Event};
pub use metrics::{
    calc_cpu, calc_cumulative_disk, calc_cumulative_net, calc_disk, calc_mem, calc_net,
    handle_stat, CpuShare, DerivedMetrics, BYTES_PER_MIB,
};
pub use record::{header, record_line};
pub use sample::{BlkioEntry, BlkioOp, Interface, RawSample};
