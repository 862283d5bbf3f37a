//! The figure that a workload run reports.

use vstd::prelude::*;

verus! {

/// Nanoseconds in a second.
pub const NANOS_PER_SECOND: u128 = 1_000_000_000;

/// The rate, in whole operations per second, of `total_ops` operations in
/// `elapsed_nanos` nanoseconds. No rate is defined for a run that took no
/// time.
pub open spec fn rate_per_second(total_ops: usize, elapsed_nanos: u128) -> Option<u128> {
    if elapsed_nanos == 0 {
        None
    } else {
        Some((total_ops * NANOS_PER_SECOND / elapsed_nanos as int) as u128)
    }
}

/// Computes the rate of `total_ops` operations in `elapsed_nanos`
/// nanoseconds.
pub fn ops_per_second(total_ops: usize, elapsed_nanos: u128) -> (rate: Option<u128>)
    ensures
        rate == rate_per_second(total_ops, elapsed_nanos),
{
    if elapsed_nanos == 0 {
        None
    } else {
        let scaled: u128 = total_ops as u128 * NANOS_PER_SECOND;
        Some(scaled / elapsed_nanos)
    }
}

/// The outcome of one workload's measurement phase.
#[derive(Copy, Clone, Debug)]
pub struct ThroughputResult {
    /// Name of the workload that ran.
    pub workload_name: &'static str,
    /// Wall-clock duration of the measurement phase, in nanoseconds.
    pub elapsed_nanos: u128,
    /// Number of measured operations.
    pub total_ops: usize,
    /// Whole operations per second, if any time elapsed.
    pub ops_per_second: Option<u128>,
}

impl ThroughputResult {
    /// A result is well formed when its rate is that of its operations in its
    /// duration.
    pub open spec fn wf(&self) -> bool {
        self.ops_per_second == rate_per_second(self.total_ops, self.elapsed_nanos)
    }

    /// The result of a measurement phase of `total_ops` operations that took
    /// `elapsed_nanos` nanoseconds.
    pub open spec fn of(workload_name: &'static str, elapsed_nanos: u128, total_ops: usize) -> Self {
        ThroughputResult {
            workload_name,
            elapsed_nanos,
            total_ops,
            ops_per_second: rate_per_second(total_ops, elapsed_nanos),
        }
    }

    /// Makes the result of a measurement phase.
    pub fn new(workload_name: &'static str, elapsed_nanos: u128, total_ops: usize) -> (result: Self)
        ensures
            result == Self::of(workload_name, elapsed_nanos, total_ops),
            result.wf(),
    {
        ThroughputResult {
            workload_name,
            elapsed_nanos,
            total_ops,
            ops_per_second: ops_per_second(total_ops, elapsed_nanos),
        }
    }
}

} // verus!
