//! The raw measurements of one benchmark.

use vstd::prelude::*;
use crate::scalar::Scalar;

verus! {

/// Why a pair of vectors is no measurement.
#[derive(Clone, Copy, Debug, PartialEq, Eq, Structural)]
pub enum SampleError {
    /// There are not as many times as iteration counts.
    LengthMismatch,
    /// There is no observation at all.
    Empty,
    /// There is one observation only, which has no dispersion.
    Single,
    /// The iteration count at `index` is zero.
    ZeroIterations { index: usize },
    /// The time at `index` is negative, infinite or not a number.
    BadTime { index: usize },
}

/// Whether `t` can be an elapsed time: a finite number that is not negative.
pub open spec fn is_duration(t: Scalar) -> bool {
    t.finite() && 0 <= t.rank()
}

/// Whether the observation at `i` is usable.
pub open spec fn sound_at(iters: Seq<u64>, times: Seq<Scalar>, i: int) -> bool {
    iters[i] > 0 && is_duration(times[i])
}

/// Whether every observation before `n` is usable.
pub open spec fn sound_before(iters: Seq<u64>, times: Seq<Scalar>, n: int) -> bool {
    forall|j: int| 0 <= j < n ==> sound_at(iters, times, j)
}

/// Whether the two vectors make a measurement: equally long, two
/// observations or more, every iteration count positive and every time a
/// duration.
pub open spec fn well_formed(iters: Seq<u64>, times: Seq<Scalar>) -> bool {
    &&& iters.len() == times.len()
    &&& iters.len() >= 2
    &&& sound_before(iters, times, iters.len() as int)
}

/// The error of two vectors that make no measurement. The lengths are
/// judged first; then the first unusable observation is named, by its
/// iteration count if that is zero, else by its time.
pub open spec fn rejects(iters: Seq<u64>, times: Seq<Scalar>, e: SampleError) -> bool {
    match e {
        SampleError::LengthMismatch => iters.len() != times.len(),
        SampleError::Empty => iters.len() == times.len() && iters.len() == 0,
        SampleError::Single => iters.len() == times.len() && iters.len() == 1,
        SampleError::ZeroIterations { index } => {
            &&& iters.len() == times.len()
            &&& iters.len() >= 2
            &&& index < iters.len()
            &&& sound_before(iters, times, index as int)
            &&& iters[index as int] == 0
        },
        SampleError::BadTime { index } => {
            &&& iters.len() == times.len()
            &&& iters.len() >= 2
            &&& index < iters.len()
            &&& sound_before(iters, times, index as int)
            &&& iters[index as int] > 0
            &&& !is_duration(times[index as int])
        },
    }
}

/// Two vectors are rejected for one reason at most, and never when they
/// make a measurement.
pub proof fn lemma_rejection_is_unique(
    iters: Seq<u64>,
    times: Seq<Scalar>,
    e1: SampleError,
    e2: SampleError,
)
    requires
        rejects(iters, times, e1),
    ensures
        !well_formed(iters, times),
        rejects(iters, times, e2) ==> e1 == e2,
{
    match e1 {
        SampleError::ZeroIterations { index } => {
            assert(!sound_at(iters, times, index as int));
        },
        SampleError::BadTime { index } => {
            assert(!sound_at(iters, times, index as int));
        },
        _ => {},
    }
    if rejects(iters, times, e2) {
        match (e1, e2) {
            (SampleError::ZeroIterations { index: i }, SampleError::ZeroIterations { index: j }) => {
                assert(!sound_at(iters, times, i as int));
                assert(!sound_at(iters, times, j as int));
            },
            (SampleError::ZeroIterations { index: i }, SampleError::BadTime { index: j }) => {
                assert(!sound_at(iters, times, i as int));
                assert(!sound_at(iters, times, j as int));
            },
            (SampleError::BadTime { index: i }, SampleError::ZeroIterations { index: j }) => {
                assert(!sound_at(iters, times, i as int));
                assert(!sound_at(iters, times, j as int));
            },
            (SampleError::BadTime { index: i }, SampleError::BadTime { index: j }) => {
                assert(!sound_at(iters, times, i as int));
                assert(!sound_at(iters, times, j as int));
            },
            _ => {},
        }
    }
}

/// What a routine measured: for each observation the number of iterations
/// and the time they took together, in nanoseconds.
#[derive(Debug, PartialEq, Eq)]
pub struct Measurement {
    iters: Vec<u64>,
    times: Vec<Scalar>,
}

impl Measurement {
    /// The iteration counts.
    pub closed spec fn iterations(&self) -> Seq<u64> {
        self.iters@
    }

    /// The elapsed times.
    pub closed spec fn elapsed(&self) -> Seq<Scalar> {
        self.times@
    }

    #[verifier::type_invariant]
    pub closed spec fn inv(&self) -> bool {
        well_formed(self.iters@, self.times@)
    }

    /// Makes a measurement of two vectors, or says why they are none.
    pub fn new(iters: Vec<u64>, times: Vec<Scalar>) -> (r: Result<Measurement, SampleError>)
        ensures
            match r {
                Ok(m) => well_formed(iters@, times@) && m.iterations() == iters@ && m.elapsed()
                    == times@,
                Err(e) => rejects(iters@, times@, e),
            },
    {
        let n = iters.len();
        if n != times.len() {
            return Err(SampleError::LengthMismatch);
        }
        if n == 0 {
            return Err(SampleError::Empty);
        }
        if n == 1 {
            return Err(SampleError::Single);
        }
        let zero = Scalar::zero();
        let mut i: usize = 0;
        while i < n
            invariant
                i <= n,
                n >= 2,
                n == iters.len(),
                n == times.len(),
                zero.bits == 0,
                sound_before(iters@, times@, i as int),
            decreases n - i,
        {
            if iters[i] == 0 {
                return Err(SampleError::ZeroIterations { index: i });
            }
            let t = times[i];
            if !(t.is_finite() && zero.le(t)) {
                return Err(SampleError::BadTime { index: i });
            }
            i += 1;
        }
        Ok(Measurement { iters, times })
    }

    /// The number of observations, two at least.
    pub fn len(&self) -> (n: usize)
        ensures
            n == self.iterations().len(),
            n == self.elapsed().len(),
            n >= 2,
    {
        proof {
            use_type_invariant(self);
        }
        self.iters.len()
    }

    /// The iteration counts, all positive.
    pub fn iters(&self) -> (v: &Vec<u64>)
        ensures
            v@ == self.iterations(),
            well_formed(self.iterations(), self.elapsed()),
    {
        proof {
            use_type_invariant(self);
        }
        &self.iters
    }

    /// The elapsed times, all durations.
    pub fn times(&self) -> (v: &Vec<Scalar>)
        ensures
            v@ == self.elapsed(),
            well_formed(self.iterations(), self.elapsed()),
    {
        proof {
            use_type_invariant(self);
        }
        &self.times
    }
}

} // verus!
