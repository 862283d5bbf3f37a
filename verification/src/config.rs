//! Run configuration and the errors that reject one.

use crate::partition::PhasePlan;
use crate::sampler::DistributionConfig;
use crate::sampler::DistributionKind;
use crate::sampler::DEFAULT_SKEW_MILLI;
use crate::sampler::SKEW_UNIT;
use crate::workload::WorkloadKind;
use vstd::prelude::*;

verus! {

/// Why a configuration is rejected before any phase runs.
#[derive(Copy, Clone, Debug, PartialEq, Eq, Structural)]
pub enum ConfigError {
    /// The worker count is zero.
    ZeroThreads,
    /// The skew exponent of a zipfian distribution is not above one.
    SkewNotAboveOne,
    /// The key domain holds no key.
    EmptyDomain,
}

impl ConfigError {
    /// A one-line account of the error.
    pub fn message(&self) -> (text: &'static str)
        ensures
            text == match *self {
                ConfigError::ZeroThreads => "--threads must be >= 1",
                ConfigError::SkewNotAboveOne => "--zipf-s must be > 1.0",
                ConfigError::EmptyDomain => "--recordcount must be >= 1",
            },
    {
        match self {
            ConfigError::ZeroThreads => "--threads must be >= 1",
            ConfigError::SkewNotAboveOne => "--zipf-s must be > 1.0",
            ConfigError::EmptyDomain => "--recordcount must be >= 1",
        }
    }
}

/// The warmup phase runs this many hundredths of the measured operations.
pub const WARMUP_PERCENT: u64 = 5;

/// The pause between warmup and measurement, in milliseconds.
pub const SETTLE_MILLIS: u64 = 200;

/// The number of warmup operations for `operation_count` measured ones:
/// `WARMUP_PERCENT` hundredths of them, rounded to the nearest whole number,
/// a half rounding up.
pub open spec fn warmup_count(operation_count: usize) -> int {
    (operation_count * WARMUP_PERCENT + 50) / 100
}

/// Computes the number of warmup operations.
pub fn warmup_ops(operation_count: usize) -> (ops: usize)
    ensures
        ops == warmup_count(operation_count),
{
    let whole: usize = operation_count / 20;
    let part: usize = operation_count % 20;
    if part >= 10 {
        whole + 1
    } else {
        whole
    }
}

/// The warmup count is the whole number nearest to `WARMUP_PERCENT`
/// hundredths of the measured operations: it is off by no more than a half,
/// and by a half only upwards.
pub proof fn lemma_warmup_count_is_nearest(operation_count: usize)
    ensures
        100 * warmup_count(operation_count) - 50 <= operation_count * WARMUP_PERCENT,
        operation_count * WARMUP_PERCENT < 100 * warmup_count(operation_count) + 50,
{
}

/// The settings of a benchmark run.
#[derive(Copy, Clone, Debug, PartialEq, Eq, Structural)]
pub struct BenchConfig {
    /// Worker count of the warmup and the measurement phase.
    pub threads: usize,
    /// The workload mixes to run.
    pub workload: WorkloadKind,
    /// Number of records to load: the size of the key domain.
    pub recordcount: usize,
    /// Number of measured operations.
    pub operationcount: usize,
    /// Whether keys follow the zipfian distribution; uniform otherwise.
    pub zipfian: bool,
    /// The zipfian skew exponent, in thousandths.
    pub zipf_s_milli: u64,
}

impl BenchConfig {
    /// The error that rejects this configuration, if any: a worker count of
    /// zero first, then a zipfian exponent that is not above one, then an
    /// empty key domain.
    pub open spec fn rejection(&self) -> Option<ConfigError> {
        if self.threads == 0 {
            Some(ConfigError::ZeroThreads)
        } else {
            DistributionConfig::rejection(self.zipfian, self.zipf_s_milli, self.recordcount)
        }
    }

    /// A configuration is valid when nothing rejects it.
    pub open spec fn valid(&self) -> bool {
        self.rejection() is None
    }

    /// The key distribution that the settings describe.
    pub open spec fn spec_distribution(&self) -> DistributionConfig {
        DistributionConfig::of_settings(self.zipfian, self.zipf_s_milli, self.recordcount)
    }

    /// The plan of the warmup phase.
    pub open spec fn spec_warmup_plan(&self) -> PhasePlan {
        PhasePlan {
            total_ops: warmup_count(self.operationcount) as usize,
            worker_count: self.threads,
        }
    }

    /// The plan of the measurement phase.
    pub open spec fn spec_measurement_plan(&self) -> PhasePlan {
        PhasePlan { total_ops: self.operationcount, worker_count: self.threads }
    }

    /// Checks the settings; nothing may run on a configuration that fails.
    pub fn validate(&self) -> (outcome: Result<(), ConfigError>)
        ensures
            outcome is Ok <==> self.valid(),
            outcome matches Err(e) ==> self.rejection() == Some(e),
    {
        if self.threads == 0 {
            Err(ConfigError::ZeroThreads)
        } else if self.zipfian && self.zipf_s_milli <= SKEW_UNIT {
            Err(ConfigError::SkewNotAboveOne)
        } else if self.recordcount == 0 {
            Err(ConfigError::EmptyDomain)
        } else {
            Ok(())
        }
    }

    /// The key distribution of the run.
    #[verifier::when_used_as_spec(spec_distribution)]
    pub fn distribution(&self) -> (dist: DistributionConfig)
        ensures
            dist == self.spec_distribution(),
            self.valid() ==> dist.wf(),
    {
        if self.zipfian {
            DistributionConfig {
                kind: DistributionKind::Zipfian { skew_milli: self.zipf_s_milli },
                domain_size: self.recordcount,
            }
        } else {
            DistributionConfig { kind: DistributionKind::Uniform, domain_size: self.recordcount }
        }
    }

    /// The plan of the warmup phase: the rounded share of the measured
    /// operations, over the configured workers.
    #[verifier::when_used_as_spec(spec_warmup_plan)]
    pub fn warmup_plan(&self) -> (plan: PhasePlan)
        ensures
            plan == self.spec_warmup_plan(),
            self.valid() ==> plan.wf(),
    {
        PhasePlan { total_ops: warmup_ops(self.operationcount), worker_count: self.threads }
    }

    /// The plan of the measurement phase: all measured operations, over the
    /// configured workers.
    #[verifier::when_used_as_spec(spec_measurement_plan)]
    pub fn measurement_plan(&self) -> (plan: PhasePlan)
        ensures
            plan == self.spec_measurement_plan(),
            self.valid() ==> plan.wf(),
    {
        PhasePlan { total_ops: self.operationcount, worker_count: self.threads }
    }
}

impl Default for BenchConfig {
    /// Four workers, all six workloads, sixty million records, two hundred
    /// million operations, zipfian keys with the customary exponent.
    fn default() -> (config: BenchConfig)
        ensures
            config == (BenchConfig {
                threads: 4,
                workload: WorkloadKind::All,
                recordcount: 60_000_000,
                operationcount: 200_000_000,
                zipfian: true,
                zipf_s_milli: DEFAULT_SKEW_MILLI,
            }),
            config.valid(),
    {
        BenchConfig {
            threads: 4,
            workload: WorkloadKind::All,
            recordcount: 60_000_000,
            operationcount: 200_000_000,
            zipfian: true,
            zipf_s_milli: DEFAULT_SKEW_MILLI,
        }
    }
}

} // verus!
