//! Statistics, their estimates, and the table that keys one by the other.

use vstd::prelude::*;
use crate::scalar::Scalar;

verus! {

/// The statistics that an analysis estimates. The set is closed.
#[derive(Clone, Copy, Debug, PartialEq, Eq, Structural, PartialOrd, Ord, Hash)]
pub enum Statistic {
    Mean,
    Median,
    MedianAbsDev,
    StdDev,
    Slope,
}

impl Statistic {
    /// The name a report prints.
    pub open spec fn label_text(self) -> Seq<char> {
        match self {
            Statistic::Mean => "mean"@,
            Statistic::Median => "median"@,
            Statistic::MedianAbsDev => "MAD"@,
            Statistic::StdDev => "SD"@,
            Statistic::Slope => "slope"@,
        }
    }

    /// The name under which an estimate is stored.
    pub open spec fn key_text(self) -> Seq<char> {
        match self {
            Statistic::Mean => "mean"@,
            Statistic::Median => "median"@,
            Statistic::MedianAbsDev => "median_abs_dev"@,
            Statistic::StdDev => "std_dev"@,
            Statistic::Slope => "slope"@,
        }
    }

    /// The name a report prints.
    pub fn label(self) -> (s: &'static str)
        ensures
            s@ == self.label_text(),
    {
        match self {
            Statistic::Mean => "mean",
            Statistic::Median => "median",
            Statistic::MedianAbsDev => "MAD",
            Statistic::StdDev => "SD",
            Statistic::Slope => "slope",
        }
    }

    /// The name under which an estimate is stored.
    pub fn key(self) -> (s: &'static str)
        ensures
            s@ == self.key_text(),
    {
        match self {
            Statistic::Mean => "mean",
            Statistic::Median => "median",
            Statistic::MedianAbsDev => "median_abs_dev",
            Statistic::StdDev => "std_dev",
            Statistic::Slope => "slope",
        }
    }
}

/// An interval with the confidence level it was taken at.
#[derive(Clone, Copy, Debug, PartialEq, Eq, Structural)]
pub struct ConfidenceInterval {
    pub confidence_level: Scalar,
    pub lower_bound: Scalar,
    pub upper_bound: Scalar,
}

impl ConfidenceInterval {
    /// Whether `x` lies between the bounds, ends included.
    pub open spec fn holds(self, x: Scalar) -> bool {
        self.lower_bound.at_most(x) && x.at_most(self.upper_bound)
    }

    /// Whether `x` lies between the bounds, ends included.
    pub fn contains(&self, x: Scalar) -> (b: bool)
        ensures
            b == self.holds(x),
    {
        self.lower_bound.le(x) && x.le(self.upper_bound)
    }
}

/// A point estimate with its standard error and confidence interval.
#[derive(Clone, Copy, Debug, PartialEq, Eq, Structural)]
pub struct Estimate {
    pub confidence_interval: ConfidenceInterval,
    pub point_estimate: Scalar,
    pub standard_error: Scalar,
}

/// What the resamples of one statistic give at a confidence level: the two
/// percentile bounds and the standard deviation of the resampled values.
#[derive(Clone, Copy, Debug, PartialEq, Eq, Structural)]
pub struct Spread {
    pub lower_bound: Scalar,
    pub upper_bound: Scalar,
    pub standard_error: Scalar,
}

impl Estimate {
    /// The estimate that pairs a point, computed on the sample itself, with the
    /// spread of its resamples. The point is not moved into the interval.
    pub open spec fn of(point: Scalar, spread: Spread, confidence_level: Scalar) -> Estimate {
        Estimate {
            confidence_interval: ConfidenceInterval {
                confidence_level,
                lower_bound: spread.lower_bound,
                upper_bound: spread.upper_bound,
            },
            point_estimate: point,
            standard_error: spread.standard_error,
        }
    }

    /// Pairs a point with the spread of its resamples.
    pub fn new(point: Scalar, spread: Spread, confidence_level: Scalar) -> (e: Estimate)
        ensures
            e == Estimate::of(point, spread, confidence_level),
    {
        Estimate {
            confidence_interval: ConfidenceInterval {
                confidence_level,
                lower_bound: spread.lower_bound,
                upper_bound: spread.upper_bound,
            },
            point_estimate: point,
            standard_error: spread.standard_error,
        }
    }

    /// Whether the point lies inside its own interval. Nothing makes it so: the
    /// point comes from the sample, the interval from the resamples.
    pub fn brackets_point(&self) -> (b: bool)
        ensures
            b == self.confidence_interval.holds(self.point_estimate),
    {
        self.confidence_interval.contains(self.point_estimate)
    }
}

/// The row of `s` in a listing of `m`: one entry, or none where `m` lacks `s`.
pub open spec fn row(m: Map<Statistic, Estimate>, s: Statistic) -> Seq<(Statistic, Estimate)> {
    if m.contains_key(s) {
        seq![(s, m[s])]
    } else {
        Seq::empty()
    }
}

/// The entries of `m`, each statistic at most once, in the order in which
/// [`Statistic`] declares them.
pub open spec fn listing(m: Map<Statistic, Estimate>) -> Seq<(Statistic, Estimate)> {
    row(m, Statistic::Mean) + row(m, Statistic::Median) + row(m, Statistic::MedianAbsDev) + row(
        m,
        Statistic::StdDev,
    ) + row(m, Statistic::Slope)
}

/// The set of all five statistics.
pub open spec fn all_statistics() -> Set<Statistic> {
    Set::new(|s: Statistic| true)
}

/// Estimates keyed by statistic; a statistic has at most one.
#[derive(Clone, Copy, Debug, PartialEq, Eq, Structural)]
pub struct Estimates {
    mean: Option<Estimate>,
    median: Option<Estimate>,
    median_abs_dev: Option<Estimate>,
    std_dev: Option<Estimate>,
    slope: Option<Estimate>,
}

impl Estimates {
    pub closed spec fn slot(self, s: Statistic) -> Option<Estimate> {
        match s {
            Statistic::Mean => self.mean,
            Statistic::Median => self.median,
            Statistic::MedianAbsDev => self.median_abs_dev,
            Statistic::StdDev => self.std_dev,
            Statistic::Slope => self.slope,
        }
    }
}

impl View for Estimates {
    type V = Map<Statistic, Estimate>;

    closed spec fn view(&self) -> Map<Statistic, Estimate> {
        Map::new(|s: Statistic| self.slot(s) is Some, |s: Statistic| self.slot(s)->Some_0)
    }
}

impl Estimates {
    /// The table without entries.
    pub fn new() -> (t: Estimates)
        ensures
            t@ == Map::<Statistic, Estimate>::empty(),
    {
        let t = Estimates { mean: None, median: None, median_abs_dev: None, std_dev: None, slope: None };
        assert(t@ =~= Map::<Statistic, Estimate>::empty());
        t
    }

    /// Sets the estimate of `s` and returns the one it replaces.
    pub fn insert(&mut self, s: Statistic, e: Estimate) -> (previous: Option<Estimate>)
        ensures
            final(self)@ == old(self)@.insert(s, e),
            previous == (if old(self)@.contains_key(s) {
                Some(old(self)@[s])
            } else {
                None
            }),
    {
        let previous = self.get(s);
        match s {
            Statistic::Mean => {
                self.mean = Some(e);
            },
            Statistic::Median => {
                self.median = Some(e);
            },
            Statistic::MedianAbsDev => {
                self.median_abs_dev = Some(e);
            },
            Statistic::StdDev => {
                self.std_dev = Some(e);
            },
            Statistic::Slope => {
                self.slope = Some(e);
            },
        }
        assert(self@ =~= old(self)@.insert(s, e));
        previous
    }

    /// The estimate of `s`, if the table has one.
    pub fn get(&self, s: Statistic) -> (e: Option<Estimate>)
        ensures
            e == (if self@.contains_key(s) {
                Some(self@[s])
            } else {
                None
            }),
    {
        match s {
            Statistic::Mean => self.mean,
            Statistic::Median => self.median,
            Statistic::MedianAbsDev => self.median_abs_dev,
            Statistic::StdDev => self.std_dev,
            Statistic::Slope => self.slope,
        }
    }

    /// Whether the table has an estimate of `s`.
    pub fn contains_key(&self, s: Statistic) -> (b: bool)
        ensures
            b == self@.contains_key(s),
    {
        self.get(s).is_some()
    }

    /// Whether the table has an estimate of every statistic.
    pub fn is_complete(&self) -> (b: bool)
        ensures
            b == (self@.dom() == all_statistics()),
    {
        let b = self.mean.is_some() && self.median.is_some() && self.median_abs_dev.is_some()
            && self.std_dev.is_some() && self.slope.is_some();
        proof {
            if b {
                assert(self@.dom() =~= all_statistics());
            } else {
                let missing = if self.mean is None {
                    Statistic::Mean
                } else if self.median is None {
                    Statistic::Median
                } else if self.median_abs_dev is None {
                    Statistic::MedianAbsDev
                } else if self.std_dev is None {
                    Statistic::StdDev
                } else {
                    Statistic::Slope
                };
                assert(self.slot(missing) is None);
                assert(!self@.dom().contains(missing));
                assert(all_statistics().contains(missing));
            }
        }
        b
    }

    /// The entries in the order of [`listing`].
    pub fn entries(&self) -> (v: Vec<(Statistic, Estimate)>)
        ensures
            v@ == listing(self@),
    {
        let mut v: Vec<(Statistic, Estimate)> = Vec::new();
        if let Some(e) = self.mean {
            v.push((Statistic::Mean, e));
        }
        assert(v@ =~= row(self@, Statistic::Mean));
        if let Some(e) = self.median {
            v.push((Statistic::Median, e));
        }
        assert(v@ =~= row(self@, Statistic::Mean) + row(self@, Statistic::Median));
        if let Some(e) = self.median_abs_dev {
            v.push((Statistic::MedianAbsDev, e));
        }
        assert(v@ =~= row(self@, Statistic::Mean) + row(self@, Statistic::Median) + row(
            self@,
            Statistic::MedianAbsDev,
        ));
        if let Some(e) = self.std_dev {
            v.push((Statistic::StdDev, e));
        }
        assert(v@ =~= row(self@, Statistic::Mean) + row(self@, Statistic::Median) + row(
            self@,
            Statistic::MedianAbsDev,
        ) + row(self@, Statistic::StdDev));
        if let Some(e) = self.slope {
            v.push((Statistic::Slope, e));
        }
        assert(v@ =~= listing(self@));
        v
    }
}

} // verus!
