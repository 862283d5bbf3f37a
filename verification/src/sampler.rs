//! The key-popularity sampler: which key an operation goes to.

use crate::config::ConfigError;
use crate::rng::random_below;
use rand::rngs::ThreadRng;
use vstd::prelude::*;

verus! {

/// The skew exponent is held in thousandths: `SKEW_UNIT` stands for an
/// exponent of one.
pub const SKEW_UNIT: u64 = 1000;

/// The customary skew exponent, 1.03, in thousandths.
pub const DEFAULT_SKEW_MILLI: u64 = 1030;

/// How keys are drawn.
#[derive(Copy, Clone, Debug, PartialEq, Eq, Structural)]
pub enum DistributionKind {
    /// Every key is equally likely.
    Uniform,
    /// Keys follow a power law with the given exponent, in thousandths.
    Zipfian { skew_milli: u64 },
}

/// A key distribution over the domain `0 .. domain_size`.
#[derive(Copy, Clone, Debug, PartialEq, Eq, Structural)]
pub struct DistributionConfig {
    pub kind: DistributionKind,
    pub domain_size: usize,
}

impl DistributionConfig {
    /// A distribution is well formed when its domain holds a key and, if it
    /// is zipfian, its exponent is above one.
    pub open spec fn wf(&self) -> bool {
        &&& self.domain_size > 0
        &&& self.kind matches DistributionKind::Zipfian { skew_milli } ==> skew_milli > SKEW_UNIT
    }

    /// The distribution that the three settings describe; the exponent counts
    /// only when `zipfian` is set.
    pub open spec fn of_settings(zipfian: bool, skew_milli: u64, domain_size: usize) -> Self {
        DistributionConfig {
            kind: if zipfian {
                DistributionKind::Zipfian { skew_milli }
            } else {
                DistributionKind::Uniform
            },
            domain_size,
        }
    }

    /// The error that rejects the three settings, if any: a zipfian
    /// exponent that is not above one first, then an empty domain.
    pub open spec fn rejection(zipfian: bool, skew_milli: u64, domain_size: usize) -> Option<
        ConfigError,
    > {
        if zipfian && skew_milli <= SKEW_UNIT {
            Some(ConfigError::SkewNotAboveOne)
        } else if domain_size == 0 {
            Some(ConfigError::EmptyDomain)
        } else {
            None
        }
    }

    /// Makes a distribution from its settings, unless they are rejected.
    pub fn new(zipfian: bool, skew_milli: u64, domain_size: usize) -> (dist: Result<
        DistributionConfig,
        ConfigError,
    >)
        ensures
            dist is Ok <==> Self::rejection(zipfian, skew_milli, domain_size) is None,
            dist matches Err(e) ==> Self::rejection(zipfian, skew_milli, domain_size) == Some(e),
            dist matches Ok(d) ==> d == Self::of_settings(zipfian, skew_milli, domain_size)
                && d.wf(),
    {
        if zipfian && skew_milli <= SKEW_UNIT {
            Err(ConfigError::SkewNotAboveOne)
        } else if domain_size == 0 {
            Err(ConfigError::EmptyDomain)
        } else if zipfian {
            Ok(DistributionConfig { kind: DistributionKind::Zipfian { skew_milli }, domain_size })
        } else {
            Ok(DistributionConfig { kind: DistributionKind::Uniform, domain_size })
        }
    }
}

/// A source of popularity ranks: whole numbers drawn from a power law, one for
/// the most popular item. The sampler accepts any rank, so nothing is asked
/// of an implementation.
pub trait RankSource {
    /// The next rank.
    fn next_rank(&mut self) -> usize;
}

/// The key of the domain `0 .. domain_size` that a popularity rank maps to:
/// ranks wrap around the domain.
pub open spec fn rank_key(rank: usize, domain_size: usize) -> int {
    rank as int % domain_size as int
}

/// Maps a popularity rank to a key of the domain.
pub fn key_for_rank(rank: usize, domain_size: usize) -> (key: usize)
    requires
        domain_size > 0,
    ensures
        key == rank_key(rank, domain_size),
        key < domain_size,
{
    rank % domain_size
}

/// A worker's key sampler, with a random source of its own. It belongs to
/// one worker and is never shared.
pub enum KeySampler<R> {
    /// Draws every key of the domain with equal probability.
    Uniform { domain_size: usize, rng: ThreadRng },
    /// Draws popularity ranks from `ranks` and maps them to keys.
    Zipfian { domain_size: usize, ranks: R },
}

impl<R: RankSource> KeySampler<R> {
    /// The size of the domain that the keys come from.
    pub open spec fn domain_size(&self) -> usize {
        match self {
            KeySampler::Uniform { domain_size, .. } => *domain_size,
            KeySampler::Zipfian { domain_size, .. } => *domain_size,
        }
    }

    /// A sampler is well formed when its domain holds a key.
    pub open spec fn wf(&self) -> bool {
        self.domain_size() > 0
    }

    /// A uniform sampler over `0 .. domain_size`, drawing from the calling
    /// thread's generator.
    pub fn uniform(domain_size: usize) -> (sampler: Self)
        ensures
            sampler is Uniform,
            sampler.domain_size() == domain_size,
    {
        KeySampler::Uniform { domain_size, rng: rand::thread_rng() }
    }

    /// A zipfian sampler over `0 .. domain_size`, taking its ranks from
    /// `ranks`.
    pub fn zipfian(domain_size: usize, ranks: R) -> (sampler: Self)
        ensures
            sampler == (KeySampler::Zipfian { domain_size, ranks }),
    {
        KeySampler::Zipfian { domain_size, ranks }
    }

    /// The next key: always a key of the domain. The sampler keeps its kind
    /// and its domain.
    pub fn next_key(&mut self) -> (key: usize)
        requires
            old(self).wf(),
        ensures
            key < old(self).domain_size(),
            final(self).domain_size() == old(self).domain_size(),
            (*final(self) is Uniform) <==> (*old(self) is Uniform),
    {
        match self {
            KeySampler::Uniform { domain_size, rng } => random_below(rng, *domain_size),
            KeySampler::Zipfian { domain_size, ranks } => {
                let rank = ranks.next_rank();
                key_for_rank(rank, *domain_size)
            },
        }
    }
}

} // verus!
