//! The options of an analysis and their validation.

use vstd::prelude::*;
use crate::scalar::{Scalar, ONE_BITS};

verus! {

/// The encoding of `0.95`, the default confidence level.
pub const DEFAULT_CONFIDENCE_LEVEL_BITS: u64 = 0x3FEE_6666_6666_6666;

/// The encoding of `0.01`, the default noise threshold.
pub const DEFAULT_NOISE_THRESHOLD_BITS: u64 = 0x3F84_7AE1_47AE_147B;

/// The encoding of `0.05`, the default significance level.
pub const DEFAULT_SIGNIFICANCE_LEVEL_BITS: u64 = 0x3FA9_9999_9999_999A;

/// The default number of resamples.
pub const DEFAULT_NRESAMPLES: usize = 100_000;

/// Whether plots are drawn.
#[derive(Clone, Copy, Debug, PartialEq, Eq, Structural)]
pub enum Plotting {
    Enabled,
    Disabled,
}

impl Plotting {
    /// Whether plots are drawn.
    pub fn is_enabled(self) -> (b: bool)
        ensures
            b == (self == Plotting::Enabled),
    {
        match self {
            Plotting::Enabled => true,
            Plotting::Disabled => false,
        }
    }
}

/// The option that makes a configuration unusable.
#[derive(Clone, Copy, Debug, PartialEq, Eq, Structural)]
pub enum ConfigError {
    /// The confidence level is not strictly between 0 and 1.
    ConfidenceLevel,
    /// The number of resamples is zero.
    Resamples,
    /// The noise threshold is negative or not a number.
    NoiseThreshold,
    /// The significance level is not strictly between 0 and 1.
    SignificanceLevel,
}

/// The options of an analysis.
#[derive(Clone, Copy, Debug, PartialEq, Eq, Structural)]
pub struct Criterion {
    /// The level of every confidence interval.
    pub confidence_level: Scalar,
    /// The number of resamples of every bootstrap.
    pub nresamples: usize,
    /// The relative change below which a difference between two runs is noise.
    pub noise_threshold: Scalar,
    /// The probability below which two runs count as different.
    pub significance_level: Scalar,
    /// Whether plots are drawn.
    pub plotting: Plotting,
}

/// Whether `x` lies strictly between 0 and 1.
pub open spec fn is_proper_fraction(x: Scalar) -> bool {
    !x.nan() && 0 < x.rank() < ONE_BITS
}

/// Whether `x` is a number and not negative. Negative zero is zero.
pub open spec fn is_nonnegative(x: Scalar) -> bool {
    !x.nan() && 0 <= x.rank()
}

impl Criterion {
    /// The error of these options, `None` where they are usable. Where more
    /// than one option is off, the first in the order of [`ConfigError`]
    /// is named.
    pub open spec fn defect(self) -> Option<ConfigError> {
        if !is_proper_fraction(self.confidence_level) {
            Some(ConfigError::ConfidenceLevel)
        } else if self.nresamples == 0 {
            Some(ConfigError::Resamples)
        } else if !is_nonnegative(self.noise_threshold) {
            Some(ConfigError::NoiseThreshold)
        } else if !is_proper_fraction(self.significance_level) {
            Some(ConfigError::SignificanceLevel)
        } else {
            None
        }
    }

    /// Whether the options are usable.
    pub open spec fn valid(self) -> bool {
        self.defect() is None
    }

    /// Confidence level 0.95, 100 000 resamples, noise threshold 0.01,
    /// significance level 0.05, plots drawn.
    pub fn new() -> (c: Criterion)
        ensures
            c.confidence_level.bits == DEFAULT_CONFIDENCE_LEVEL_BITS,
            c.nresamples == DEFAULT_NRESAMPLES,
            c.noise_threshold.bits == DEFAULT_NOISE_THRESHOLD_BITS,
            c.significance_level.bits == DEFAULT_SIGNIFICANCE_LEVEL_BITS,
            c.plotting == Plotting::Enabled,
            c.valid(),
    {
        Criterion {
            confidence_level: Scalar::from_bits(DEFAULT_CONFIDENCE_LEVEL_BITS),
            nresamples: DEFAULT_NRESAMPLES,
            noise_threshold: Scalar::from_bits(DEFAULT_NOISE_THRESHOLD_BITS),
            significance_level: Scalar::from_bits(DEFAULT_SIGNIFICANCE_LEVEL_BITS),
            plotting: Plotting::Enabled,
        }
    }

    /// Checks the options: `Ok` exactly where every one is usable, else the
    /// first that is not.
    pub fn validate(&self) -> (r: Result<(), ConfigError>)
        ensures
            r == (match self.defect() {
                Some(e) => Err::<(), ConfigError>(e),
                None => Ok(()),
            }),
    {
        let zero = Scalar::zero();
        let one = Scalar::one();
        if !(zero.lt(self.confidence_level) && self.confidence_level.lt(one)) {
            Err(ConfigError::ConfidenceLevel)
        } else if self.nresamples == 0 {
            Err(ConfigError::Resamples)
        } else if !zero.le(self.noise_threshold) {
            Err(ConfigError::NoiseThreshold)
        } else if !(zero.lt(self.significance_level) && self.significance_level.lt(one)) {
            Err(ConfigError::SignificanceLevel)
        } else {
            Ok(())
        }
    }

    /// The same options with another confidence level.
    pub fn confidence_level(self, cl: Scalar) -> (c: Criterion)
        ensures
            c == (Criterion { confidence_level: cl, ..self }),
    {
        Criterion { confidence_level: cl, ..self }
    }

    /// The same options with another number of resamples.
    pub fn nresamples(self, n: usize) -> (c: Criterion)
        ensures
            c == (Criterion { nresamples: n, ..self }),
    {
        Criterion { nresamples: n, ..self }
    }

    /// The same options with another noise threshold.
    pub fn noise_threshold(self, threshold: Scalar) -> (c: Criterion)
        ensures
            c == (Criterion { noise_threshold: threshold, ..self }),
    {
        Criterion { noise_threshold: threshold, ..self }
    }

    /// The same options with another significance level.
    pub fn significance_level(self, sl: Scalar) -> (c: Criterion)
        ensures
            c == (Criterion { significance_level: sl, ..self }),
    {
        Criterion { significance_level: sl, ..self }
    }

    /// The same options with plots drawn.
    pub fn with_plots(self) -> (c: Criterion)
        ensures
            c == (Criterion { plotting: Plotting::Enabled, ..self }),
    {
        Criterion { plotting: Plotting::Enabled, ..self }
    }

    /// The same options without plots.
    pub fn without_plots(self) -> (c: Criterion)
        ensures
            c == (Criterion { plotting: Plotting::Disabled, ..self }),
    {
        Criterion { plotting: Plotting::Disabled, ..self }
    }
}

} // verus!
