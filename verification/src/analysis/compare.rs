//! Comparing a run with the one before it.
//!
//! The relative change of a statistic is `(new - base) / base`, so for a
//! time a positive change is a slowdown.

use vstd::prelude::*;
use crate::analysis::{Resampled, Univariate};
use crate::config::{is_nonnegative, Criterion};
use crate::estimate::{listing, ConfidenceInterval, Estimate, Estimates, Statistic};
use crate::measurement::{well_formed, Measurement};
use crate::report::{estimate_lines, rel, Line, Unit};
use crate::scalar::Scalar;
use crate::store::{change_estimates_file, change_estimates_path};

verus! {

/// What the test of the two samples says.
#[derive(Clone, Copy, Debug, PartialEq, Eq, Structural)]
pub enum Significance {
    /// The samples differ more than chance explains.
    Different,
    /// They do not.
    NoChange,
}

impl Significance {
    /// The word for it.
    pub fn label(self) -> (s: &'static str)
        ensures
            s@ == (match self {
                Significance::Different => "different"@,
                Significance::NoChange => "no change"@,
            }),
    {
        match self {
            Significance::Different => "different",
            Significance::NoChange => "no change",
        }
    }
}

/// Judges the probability `p_value` of a difference as large as the one
/// seen, were both samples drawn from one distribution: the samples are
/// different exactly where it is below the significance level.
pub fn t_test(p_value: Scalar, criterion: &Criterion) -> (s: Significance)
    ensures
        s == Significance::Different <==> p_value.below(criterion.significance_level),
{
    if p_value.lt(criterion.significance_level) {
        Significance::Different
    } else {
        Significance::NoChange
    }
}

/// What a relative change amounts to.
#[derive(Clone, Copy, Debug, PartialEq, Eq, Structural)]
pub enum Outcome {
    /// The whole interval lies within the noise threshold of zero.
    WithinNoise,
    /// The whole interval lies above the threshold.
    Regressed,
    /// The whole interval lies below the negated threshold.
    Improved,
    /// The interval crosses a threshold.
    Inconclusive,
}

impl Outcome {
    /// The word for it.
    pub fn label(self) -> (s: &'static str)
        ensures
            s@ == (match self {
                Outcome::WithinNoise => "within noise"@,
                Outcome::Regressed => "regressed"@,
                Outcome::Improved => "improved"@,
                Outcome::Inconclusive => "inconclusive"@,
            }),
    {
        match self {
            Outcome::WithinNoise => "within noise",
            Outcome::Regressed => "regressed",
            Outcome::Improved => "improved",
            Outcome::Inconclusive => "inconclusive",
        }
    }
}

/// Whether `x` lies in `[-noise, noise]`.
pub open spec fn within(x: Scalar, noise: Scalar) -> bool {
    noise.negated().at_most(x) && x.at_most(noise)
}

/// The outcome of a change whose confidence interval is `ci`, against the
/// threshold `noise`: within noise where both bounds lie in `[-noise,
/// noise]`, regressed where both lie above `noise`, improved where both lie
/// below `-noise`, and inconclusive in every other case.
pub open spec fn outcome_of(ci: ConfidenceInterval, noise: Scalar) -> Outcome {
    if within(ci.lower_bound, noise) && within(ci.upper_bound, noise) {
        Outcome::WithinNoise
    } else if noise.below(ci.lower_bound) && noise.below(ci.upper_bound) {
        Outcome::Regressed
    } else if ci.lower_bound.below(noise.negated()) && ci.upper_bound.below(noise.negated()) {
        Outcome::Improved
    } else {
        Outcome::Inconclusive
    }
}

/// Judges the relative change `estimate` against the threshold `noise`.
pub fn compare_to_threshold(estimate: &Estimate, noise: Scalar) -> (o: Outcome)
    ensures
        o == outcome_of(estimate.confidence_interval, noise),
{
    let lb = estimate.confidence_interval.lower_bound;
    let ub = estimate.confidence_interval.upper_bound;
    let floor = noise.neg();
    if floor.le(lb) && lb.le(noise) && floor.le(ub) && ub.le(noise) {
        Outcome::WithinNoise
    } else if noise.lt(lb) && noise.lt(ub) {
        Outcome::Regressed
    } else if lb.lt(floor) && ub.lt(floor) {
        Outcome::Improved
    } else {
        Outcome::Inconclusive
    }
}

/// For an interval whose bounds are in order and a threshold that is not
/// negative, the lower bound alone decides a regression and the upper bound
/// alone an improvement; the three decided outcomes exclude each other, and
/// a change is inconclusive exactly where the interval crosses `noise` or
/// `-noise`.
pub proof fn lemma_outcomes_of_an_interval(ci: ConfidenceInterval, noise: Scalar)
    requires
        ci.lower_bound.at_most(ci.upper_bound),
        is_nonnegative(noise),
    ensures
        outcome_of(ci, noise) == Outcome::WithinNoise <==> noise.negated().at_most(ci.lower_bound)
            && ci.upper_bound.at_most(noise),
        outcome_of(ci, noise) == Outcome::Regressed <==> noise.below(ci.lower_bound),
        outcome_of(ci, noise) == Outcome::Improved <==> ci.upper_bound.below(noise.negated()),
        outcome_of(ci, noise) == Outcome::Inconclusive <==> (ci.lower_bound.at_most(noise)
            && noise.below(ci.upper_bound)) || (ci.lower_bound.below(noise.negated())
            && noise.negated().at_most(ci.upper_bound)),
{
}

/// An interval that holds zero is never a regression nor an improvement,
/// whatever the threshold, as long as that is not negative.
pub proof fn lemma_straddling_zero_decides_nothing(ci: ConfidenceInterval, noise: Scalar)
    requires
        ci.holds(Scalar { bits: 0 }),
        is_nonnegative(noise),
    ensures
        outcome_of(ci, noise) == Outcome::WithinNoise || outcome_of(ci, noise)
            == Outcome::Inconclusive,
{
}

/// The outcome of every estimate of `m`, in the order of [`listing`].
pub open spec fn outcomes(m: Map<Statistic, Estimate>, noise: Scalar) -> Seq<(Statistic, Outcome)> {
    Seq::new(
        listing(m).len(),
        |i: int| (listing(m)[i].0, outcome_of(listing(m)[i].1.confidence_interval, noise)),
    )
}

/// Judges every relative estimate against the noise threshold of the
/// options.
pub fn verdicts(estimates: &Estimates, criterion: &Criterion) -> (v: Vec<(Statistic, Outcome)>)
    ensures
        v@ == outcomes(estimates@, criterion.noise_threshold),
{
    let entries = estimates.entries();
    let mut v: Vec<(Statistic, Outcome)> = Vec::new();
    let mut i: usize = 0;
    while i < entries.len()
        invariant
            i <= entries.len(),
            entries@ == listing(estimates@),
            v.len() == i,
            forall|j: int|
                0 <= j < i ==> v[j] == outcomes(estimates@, criterion.noise_threshold)[j],
        decreases entries.len() - i,
    {
        let (s, e) = entries[i];
        v.push((s, compare_to_threshold(&e, criterion.noise_threshold)));
        i += 1;
    }
    assert(v@ =~= outcomes(estimates@, criterion.noise_threshold));
    v
}

/// The measurements of the base run, where they were read and make a
/// measurement; without them the comparison is skipped.
pub fn usable_base(loaded: Option<(Vec<u64>, Vec<Scalar>)>) -> (base: Option<Measurement>)
    ensures
        match base {
            Some(m) => loaded matches Some(pair) && well_formed(pair.0@, pair.1@) && m.iterations()
                == pair.0@ && m.elapsed() == pair.1@,
            None => loaded matches Some(pair) ==> !well_formed(pair.0@, pair.1@),
        },
{
    match loaded {
        Some((iters, times)) => {
            let ghost i = iters@;
            let ghost t = times@;
            match Measurement::new(iters, times) {
                Ok(m) => Some(m),
                Err(e) => {
                    proof {
                        crate::measurement::lemma_rejection_is_unique(i, t, e, e);
                    }
                    None
                },
            }
        },
        None => None,
    }
}

/// The outcome of the stage that compares two runs.
#[derive(Debug)]
pub struct Comparison {
    /// The relative estimates.
    pub estimates: Estimates,
    /// The report.
    pub report: Vec<Line>,
    /// The file to save the relative estimates in.
    pub estimates_file: String,
}

/// Turns the relative changes of the five statistics of the benchmark
/// `id` into their estimates, reports them, and names the file that takes
/// them.
pub fn relative_estimates(
    id: &str,
    statistics: &Univariate,
    slope: Resampled,
    criterion: &Criterion,
) -> (out: Comparison)
    ensures
        out.estimates@ == statistics.table(criterion.confidence_level).insert(
            Statistic::Slope,
            slope.estimate(criterion.confidence_level),
        ),
        out.report.deep_view() == estimate_lines(out.estimates@, Unit::Change),
        out.estimates_file@ == change_estimates_path(id@),
{
    let cl = criterion.confidence_level;
    let mut table = Estimates::new();
    table.insert(Statistic::Mean, Estimate::new(statistics.mean.point, statistics.mean.spread, cl));
    table.insert(
        Statistic::Median,
        Estimate::new(statistics.median.point, statistics.median.spread, cl),
    );
    table.insert(
        Statistic::MedianAbsDev,
        Estimate::new(statistics.median_abs_dev.point, statistics.median_abs_dev.spread, cl),
    );
    table.insert(
        Statistic::StdDev,
        Estimate::new(statistics.std_dev.point, statistics.std_dev.spread, cl),
    );
    table.insert(Statistic::Slope, Estimate::new(slope.point, slope.spread, cl));
    let report = rel(&table);
    Comparison { estimates: table, report, estimates_file: change_estimates_file(id) }
}

} // verus!
