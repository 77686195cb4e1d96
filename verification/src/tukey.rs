//! Tukey's fences: labelling observations as mild or severe outliers.

use vstd::prelude::*;
use crate::scalar::Scalar;

verus! {

/// Where an observation lies relative to the fences.
#[derive(Clone, Copy, Debug, PartialEq, Eq, Structural, Hash)]
pub enum Label {
    LowSevere,
    LowMild,
    NotAnOutlier,
    HighMild,
    HighSevere,
}

impl Label {
    /// Whether the label marks an outlier.
    pub fn is_outlier(self) -> (b: bool)
        ensures
            b == (self != Label::NotAnOutlier),
    {
        match self {
            Label::NotAnOutlier => false,
            _ => true,
        }
    }
}

/// The four fences, from the lowest to the highest: the outer low fence
/// `Q1 - 3 IQR`, the inner low fence `Q1 - 1.5 IQR`, the inner high fence
/// `Q3 + 1.5 IQR` and the outer high fence `Q3 + 3 IQR`.
///
/// A value of this type is always in that order, and none of the four is
/// not-a-number.
#[derive(Clone, Copy, Debug, PartialEq, Eq)]
pub struct Fences {
    low_severe: Scalar,
    low_mild: Scalar,
    high_mild: Scalar,
    high_severe: Scalar,
}

/// Whether four scalars are numbers in ascending order.
pub open spec fn ascending(a: Scalar, b: Scalar, c: Scalar, d: Scalar) -> bool {
    a.at_most(b) && b.at_most(c) && c.at_most(d)
}

/// The label of `x` against four fences: below the outer low fence, above
/// the outer high one, below the inner low one, above the inner high one,
/// tested in that order; an observation that is none of these is no outlier.
pub open spec fn label_against(x: Scalar, ls: Scalar, lm: Scalar, hm: Scalar, hs: Scalar) -> Label {
    if x.below(ls) {
        Label::LowSevere
    } else if hs.below(x) {
        Label::HighSevere
    } else if x.below(lm) {
        Label::LowMild
    } else if hm.below(x) {
        Label::HighMild
    } else {
        Label::NotAnOutlier
    }
}

impl Fences {
    pub closed spec fn ls(self) -> Scalar {
        self.low_severe
    }

    pub closed spec fn lm(self) -> Scalar {
        self.low_mild
    }

    pub closed spec fn hm(self) -> Scalar {
        self.high_mild
    }

    pub closed spec fn hs(self) -> Scalar {
        self.high_severe
    }

    #[verifier::type_invariant]
    pub closed spec fn ordered(self) -> bool {
        ascending(self.low_severe, self.low_mild, self.high_mild, self.high_severe)
    }

    /// The label that these fences give `x`.
    pub open spec fn label_of(self, x: Scalar) -> Label {
        label_against(x, self.ls(), self.lm(), self.hm(), self.hs())
    }

    /// The fences `ls <= lm <= hm <= hs`; `None` where the four are not in
    /// that order, or one of them is not a number.
    pub fn new(ls: Scalar, lm: Scalar, hm: Scalar, hs: Scalar) -> (f: Option<Fences>)
        ensures
            f is Some <==> ascending(ls, lm, hm, hs),
            f matches Some(g) ==> g.ls() == ls && g.lm() == lm && g.hm() == hm && g.hs() == hs,
    {
        if ls.le(lm) && lm.le(hm) && hm.le(hs) {
            Some(Fences { low_severe: ls, low_mild: lm, high_mild: hm, high_severe: hs })
        } else {
            None
        }
    }

    /// The four fences, lowest first.
    pub fn values(&self) -> (v: (Scalar, Scalar, Scalar, Scalar))
        ensures
            v == (self.ls(), self.lm(), self.hm(), self.hs()),
            ascending(v.0, v.1, v.2, v.3),
    {
        proof {
            use_type_invariant(self);
        }
        (self.low_severe, self.low_mild, self.high_mild, self.high_severe)
    }

    /// Labels one observation.
    pub fn label(&self, x: Scalar) -> (l: Label)
        ensures
            l == self.label_of(x),
    {
        if x.lt(self.low_severe) {
            Label::LowSevere
        } else if x.gt(self.high_severe) {
            Label::HighSevere
        } else if x.lt(self.low_mild) {
            Label::LowMild
        } else if x.gt(self.high_mild) {
            Label::HighMild
        } else {
            Label::NotAnOutlier
        }
    }
}

/// The bands of the labels. With the fences in order, a number is a severe
/// low outlier below the outer low fence, a mild one from there up to the
/// inner low fence, and symmetrically above; everything between the inner
/// fences, ends included, is no outlier. What is not a number is never one.
pub proof fn lemma_label_bands(x: Scalar, ls: Scalar, lm: Scalar, hm: Scalar, hs: Scalar)
    requires
        ascending(ls, lm, hm, hs),
    ensures
        label_against(x, ls, lm, hm, hs) == Label::LowSevere <==> x.below(ls),
        label_against(x, ls, lm, hm, hs) == Label::LowMild <==> ls.at_most(x) && x.below(lm),
        label_against(x, ls, lm, hm, hs) == Label::NotAnOutlier <==> x.nan() || (lm.at_most(x)
            && x.at_most(hm)),
        label_against(x, ls, lm, hm, hs) == Label::HighMild <==> hm.below(x) && x.at_most(hs),
        label_against(x, ls, lm, hm, hs) == Label::HighSevere <==> hs.below(x),
{
}

/// The labels of a sequence of observations, one each, in order.
pub open spec fn labels_of(xs: Seq<Scalar>, f: Fences) -> Seq<Label> {
    Seq::new(xs.len(), |i: int| f.label_of(xs[i]))
}

/// How often `l` occurs in `labels`.
pub open spec fn occurrences(labels: Seq<Label>, l: Label) -> nat
    decreases labels.len(),
{
    if labels.len() == 0 {
        0
    } else {
        occurrences(labels.drop_last(), l) + if labels.last() == l {
            1nat
        } else {
            0nat
        }
    }
}

/// Every label is one of the five, so the five counts add up to the length.
pub proof fn lemma_occurrences_partition(labels: Seq<Label>)
    ensures
        occurrences(labels, Label::LowSevere) + occurrences(labels, Label::LowMild) + occurrences(
            labels,
            Label::NotAnOutlier,
        ) + occurrences(labels, Label::HighMild) + occurrences(labels, Label::HighSevere)
            == labels.len(),
    decreases labels.len(),
{
    if labels.len() > 0 {
        lemma_occurrences_partition(labels.drop_last());
    }
}

/// A sample with the fences that label its observations.
#[derive(Clone, Debug)]
pub struct LabeledSample {
    sample: Vec<Scalar>,
    fences: Fences,
}

impl LabeledSample {
    /// The observations, in the order given.
    pub closed spec fn observations(&self) -> Seq<Scalar> {
        self.sample@
    }

    /// The fences.
    pub closed spec fn bounds(&self) -> Fences {
        self.fences
    }

    /// The labels, one per observation.
    pub open spec fn labels(&self) -> Seq<Label> {
        labels_of(self.observations(), self.bounds())
    }

    /// Puts a sample under its fences. No observation is dropped: the labels
    /// are a diagnosis, not a filter.
    pub fn classify(sample: Vec<Scalar>, fences: Fences) -> (s: LabeledSample)
        ensures
            s.observations() == sample@,
            s.bounds() == fences,
    {
        LabeledSample { sample, fences }
    }

    /// The number of observations.
    pub fn len(&self) -> (n: usize)
        ensures
            n == self.observations().len(),
    {
        self.sample.len()
    }

    /// The fences.
    pub fn fences(&self) -> (f: Fences)
        ensures
            f == self.bounds(),
    {
        self.fences
    }

    /// The observation at `i`.
    pub fn observation(&self, i: usize) -> (x: Option<Scalar>)
        ensures
            x == (if i < self.observations().len() {
                Some(self.observations()[i as int])
            } else {
                None
            }),
    {
        if i < self.sample.len() {
            Some(self.sample[i])
        } else {
            None
        }
    }

    /// The label of the observation at `i`.
    pub fn label(&self, i: usize) -> (l: Option<Label>)
        ensures
            l == (if i < self.labels().len() {
                Some(self.labels()[i as int])
            } else {
                None
            }),
    {
        if i < self.sample.len() {
            Some(self.fences.label(self.sample[i]))
        } else {
            None
        }
    }

    /// How many observations carry each label: severe low, mild low, none,
    /// mild high, severe high.
    pub fn count(&self) -> (c: (usize, usize, usize, usize, usize))
        ensures
            c.0 == occurrences(self.labels(), Label::LowSevere),
            c.1 == occurrences(self.labels(), Label::LowMild),
            c.2 == occurrences(self.labels(), Label::NotAnOutlier),
            c.3 == occurrences(self.labels(), Label::HighMild),
            c.4 == occurrences(self.labels(), Label::HighSevere),
            c.0 + c.1 + c.2 + c.3 + c.4 == self.observations().len(),
    {
        let n = self.sample.len();
        let ghost all = self.labels();
        let mut los: usize = 0;
        let mut lom: usize = 0;
        let mut noa: usize = 0;
        let mut him: usize = 0;
        let mut his: usize = 0;
        let mut i: usize = 0;
        while i < n
            invariant
                i <= n,
                n == self.sample.len(),
                all == self.labels(),
                all.len() == n,
                los == occurrences(all.take(i as int), Label::LowSevere),
                lom == occurrences(all.take(i as int), Label::LowMild),
                noa == occurrences(all.take(i as int), Label::NotAnOutlier),
                him == occurrences(all.take(i as int), Label::HighMild),
                his == occurrences(all.take(i as int), Label::HighSevere),
                los + lom + noa + him + his == i,
            decreases n - i,
        {
            let l = self.fences.label(self.sample[i]);
            proof {
                let next = all.take(i + 1);
                assert(next.drop_last() =~= all.take(i as int));
                assert(next.last() == all[i as int]);
                assert(all[i as int] == l);
            }
            match l {
                Label::LowSevere => {
                    los += 1;
                },
                Label::LowMild => {
                    lom += 1;
                },
                Label::NotAnOutlier => {
                    noa += 1;
                },
                Label::HighMild => {
                    him += 1;
                },
                Label::HighSevere => {
                    his += 1;
                },
            }
            i += 1;
        }
        assert(all.take(n as int) =~= all);
        (los, lom, noa, him, his)
    }
}

} // verus!
