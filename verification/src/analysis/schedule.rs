//! The order of the stages of one analysis.
//!
//! Every stage does work that this crate cannot do itself: it runs the
//! routine, touches the store, resamples or plots. So the caller performs a
//! stage and then asks here which one follows. Two stages ask a question of
//! the store, and what follows them depends on the answer.

use vstd::prelude::*;

verus! {

/// A stage of the analysis of one benchmark.
#[derive(Clone, Copy, Debug, PartialEq, Eq, Structural, Hash)]
pub enum Step {
    /// Say which benchmark begins.
    Announce,
    /// Run the routine and take its measurements.
    Sample,
    /// Make the previous run the base.
    Promote,
    /// Create the directory of the new run.
    MakeNewDir,
    /// Label the outliers, report them and save the fences.
    Outliers,
    /// Plot the distribution of the sample.
    PlotPdf,
    /// Fit the slope, resample it and report it.
    Regression,
    /// Plot the regression.
    PlotRegression,
    /// Estimate the statistics of the sample and report them.
    Estimates,
    /// Plot the distributions of the estimates.
    PlotDistributions,
    /// Save the measurements.
    SaveSample,
    /// Save the estimates.
    SaveEstimates,
    /// Ask whether a base run exists.
    ProbeBase,
    /// Ask whether the measurements of the base run can be read and used.
    LoadBase,
    /// Compare the new run with the base.
    Compare,
}

/// The number of stages.
pub const STEPS: usize = 15;

impl Step {
    /// The place of the stage in the order of all stages.
    pub open spec fn position(self) -> nat {
        match self {
            Step::Announce => 0,
            Step::Sample => 1,
            Step::Promote => 2,
            Step::MakeNewDir => 3,
            Step::Outliers => 4,
            Step::PlotPdf => 5,
            Step::Regression => 6,
            Step::PlotRegression => 7,
            Step::Estimates => 8,
            Step::PlotDistributions => 9,
            Step::SaveSample => 10,
            Step::SaveEstimates => 11,
            Step::ProbeBase => 12,
            Step::LoadBase => 13,
            Step::Compare => 14,
        }
    }

    /// Whether the stage only plots.
    pub open spec fn plots(self) -> bool {
        self == Step::PlotPdf || self == Step::PlotRegression || self == Step::PlotDistributions
    }

    /// Whether the stage writes into the directory of the new run.
    pub open spec fn writes(self) -> bool {
        self == Step::MakeNewDir || self == Step::Outliers || self == Step::SaveSample || self
            == Step::SaveEstimates || self == Step::Compare
    }

    /// Whether the stage asks a question, so that what follows depends on
    /// the answer.
    pub open spec fn asks(self) -> bool {
        self == Step::ProbeBase || self == Step::LoadBase
    }

    /// The stage after this one in the order of all stages, plots and
    /// comparison included.
    pub open spec fn following(self) -> Option<Step> {
        match self {
            Step::Announce => Some(Step::Sample),
            Step::Sample => Some(Step::Promote),
            Step::Promote => Some(Step::MakeNewDir),
            Step::MakeNewDir => Some(Step::Outliers),
            Step::Outliers => Some(Step::PlotPdf),
            Step::PlotPdf => Some(Step::Regression),
            Step::Regression => Some(Step::PlotRegression),
            Step::PlotRegression => Some(Step::Estimates),
            Step::Estimates => Some(Step::PlotDistributions),
            Step::PlotDistributions => Some(Step::SaveSample),
            Step::SaveSample => Some(Step::SaveEstimates),
            Step::SaveEstimates => Some(Step::ProbeBase),
            Step::ProbeBase => Some(Step::LoadBase),
            Step::LoadBase => Some(Step::Compare),
            Step::Compare => None,
        }
    }

    /// The stage to perform after this one, `None` where the analysis is
    /// over. A stage that asks is the last unless the answer is yes; a stage
    /// that does not ask is followed by the next stage that is not a plot,
    /// or by the next stage whatever it is where plots are drawn.
    pub open spec fn successor(self, plotting: bool, answer: bool) -> Option<Step> {
        if self.asks() && !answer {
            None
        } else {
            match self.following() {
                Some(next) => if next.plots() && !plotting {
                    next.following()
                } else {
                    Some(next)
                },
                None => None,
            }
        }
    }

    /// The stage with which every analysis begins.
    pub fn first() -> (s: Step)
        ensures
            s == Step::Announce,
    {
        Step::Announce
    }

    /// Whether the stage only plots.
    pub fn is_plot(self) -> (b: bool)
        ensures
            b == self.plots(),
    {
        match self {
            Step::PlotPdf | Step::PlotRegression | Step::PlotDistributions => true,
            _ => false,
        }
    }

    /// Whether the stage asks a question of the store.
    pub fn is_question(self) -> (b: bool)
        ensures
            b == self.asks(),
    {
        match self {
            Step::ProbeBase | Step::LoadBase => true,
            _ => false,
        }
    }

    fn after(self) -> (s: Option<Step>)
        ensures
            s == self.following(),
    {
        match self {
            Step::Announce => Some(Step::Sample),
            Step::Sample => Some(Step::Promote),
            Step::Promote => Some(Step::MakeNewDir),
            Step::MakeNewDir => Some(Step::Outliers),
            Step::Outliers => Some(Step::PlotPdf),
            Step::PlotPdf => Some(Step::Regression),
            Step::Regression => Some(Step::PlotRegression),
            Step::PlotRegression => Some(Step::Estimates),
            Step::Estimates => Some(Step::PlotDistributions),
            Step::PlotDistributions => Some(Step::SaveSample),
            Step::SaveSample => Some(Step::SaveEstimates),
            Step::SaveEstimates => Some(Step::ProbeBase),
            Step::ProbeBase => Some(Step::LoadBase),
            Step::LoadBase => Some(Step::Compare),
            Step::Compare => None,
        }
    }

    /// The stage to perform after this one, `None` where the analysis is
    /// over. `answer` is what the store said to a stage that asks; for every
    /// other stage it is not read.
    pub fn next(self, plotting: bool, answer: bool) -> (s: Option<Step>)
        ensures
            s == self.successor(plotting, answer),
            !self.asks() ==> s == self.successor(plotting, !answer),
    {
        if self.is_question() && !answer {
            return None;
        }
        match self.after() {
            Some(next) => if next.is_plot() && !plotting {
                next.after()
            } else {
                Some(next)
            },
            None => None,
        }
    }
}

/// What the store answers to the stage `step` in an analysis where a base
/// run exists or not, and can be used or not.
pub open spec fn answer_to(step: Step, base_exists: bool, base_usable: bool) -> bool {
    match step {
        Step::ProbeBase => base_exists,
        Step::LoadBase => base_usable,
        _ => false,
    }
}

/// The stages performed from `step` on, `step` first.
pub open spec fn run_from(step: Step, plotting: bool, base_exists: bool, base_usable: bool) -> Seq<
    Step,
>
    decreases STEPS - step.position(),
{
    match step.successor(plotting, answer_to(step, base_exists, base_usable)) {
        Some(next) => seq![step] + run_from(next, plotting, base_exists, base_usable),
        None => seq![step],
    }
}

/// The stages of a whole analysis, in the order performed.
pub open spec fn run(plotting: bool, base_exists: bool, base_usable: bool) -> Seq<Step> {
    run_from(Step::Announce, plotting, base_exists, base_usable)
}

/// The stages that every analysis performs, in order.
pub open spec fn core_steps() -> Seq<Step> {
    seq![
        Step::Announce,
        Step::Sample,
        Step::Promote,
        Step::MakeNewDir,
        Step::Outliers,
        Step::Regression,
        Step::Estimates,
        Step::SaveSample,
        Step::SaveEstimates,
        Step::ProbeBase,
    ]
}

/// The stages of an analysis that draws plots, up to the first question.
pub open spec fn plotted_steps() -> Seq<Step> {
    seq![
        Step::Announce,
        Step::Sample,
        Step::Promote,
        Step::MakeNewDir,
        Step::Outliers,
        Step::PlotPdf,
        Step::Regression,
        Step::PlotRegression,
        Step::Estimates,
        Step::PlotDistributions,
        Step::SaveSample,
        Step::SaveEstimates,
        Step::ProbeBase,
    ]
}

/// The stages that follow the question whether a base run exists.
pub open spec fn comparison_steps(base_exists: bool, base_usable: bool) -> Seq<Step> {
    if !base_exists {
        Seq::empty()
    } else if !base_usable {
        seq![Step::LoadBase]
    } else {
        seq![Step::LoadBase, Step::Compare]
    }
}

/// A stage is always followed by a later one, so no stage is performed
/// twice and every analysis ends.
pub proof fn lemma_successor_is_later(step: Step, plotting: bool, answer: bool)
    ensures
        step.successor(plotting, answer) matches Some(next) ==> step.position() < next.position(),
        step.position() < STEPS,
{
}

/// What follows in an analysis from the first question on.
proof fn lemma_run_from_probe(plotting: bool, base_exists: bool, base_usable: bool)
    ensures
        run_from(Step::ProbeBase, plotting, base_exists, base_usable) == seq![Step::ProbeBase]
            + comparison_steps(base_exists, base_usable),
{
    reveal_with_fuel(run_from, 3);
    assert(run_from(Step::ProbeBase, plotting, base_exists, base_usable) =~= seq![Step::ProbeBase]
        + comparison_steps(base_exists, base_usable));
}

/// What follows in an analysis from the saving of the measurements on.
proof fn lemma_run_from_save(plotting: bool, base_exists: bool, base_usable: bool)
    ensures
        run_from(Step::SaveSample, plotting, base_exists, base_usable) == seq![
            Step::SaveSample,
            Step::SaveEstimates,
            Step::ProbeBase,
        ] + comparison_steps(base_exists, base_usable),
{
    lemma_run_from_probe(plotting, base_exists, base_usable);
    reveal_with_fuel(run_from, 2);
    assert(run_from(Step::SaveSample, plotting, base_exists, base_usable) =~= seq![
        Step::SaveSample,
        Step::SaveEstimates,
        Step::ProbeBase,
    ] + comparison_steps(base_exists, base_usable));
}

/// What follows in an analysis from the estimates on.
proof fn lemma_run_from_estimates(plotting: bool, base_exists: bool, base_usable: bool)
    ensures
        run_from(Step::Estimates, plotting, base_exists, base_usable) == (if plotting {
            seq![Step::Estimates, Step::PlotDistributions]
        } else {
            seq![Step::Estimates]
        }) + run_from(Step::SaveSample, plotting, base_exists, base_usable),
{
    reveal_with_fuel(run_from, 2);
    assert(run_from(Step::Estimates, plotting, base_exists, base_usable) =~= (if plotting {
        seq![Step::Estimates, Step::PlotDistributions]
    } else {
        seq![Step::Estimates]
    }) + run_from(Step::SaveSample, plotting, base_exists, base_usable));
}

/// What follows in an analysis from the regression on.
proof fn lemma_run_from_regression(plotting: bool, base_exists: bool, base_usable: bool)
    ensures
        run_from(Step::Regression, plotting, base_exists, base_usable) == (if plotting {
            seq![Step::Regression, Step::PlotRegression]
        } else {
            seq![Step::Regression]
        }) + run_from(Step::Estimates, plotting, base_exists, base_usable),
{
    reveal_with_fuel(run_from, 2);
    assert(run_from(Step::Regression, plotting, base_exists, base_usable) =~= (if plotting {
        seq![Step::Regression, Step::PlotRegression]
    } else {
        seq![Step::Regression]
    }) + run_from(Step::Estimates, plotting, base_exists, base_usable));
}

/// What follows in an analysis from the outliers on.
proof fn lemma_run_from_outliers(plotting: bool, base_exists: bool, base_usable: bool)
    ensures
        run_from(Step::Outliers, plotting, base_exists, base_usable) == (if plotting {
            seq![Step::Outliers, Step::PlotPdf]
        } else {
            seq![Step::Outliers]
        }) + run_from(Step::Regression, plotting, base_exists, base_usable),
{
    reveal_with_fuel(run_from, 2);
    assert(run_from(Step::Outliers, plotting, base_exists, base_usable) =~= (if plotting {
        seq![Step::Outliers, Step::PlotPdf]
    } else {
        seq![Step::Outliers]
    }) + run_from(Step::Regression, plotting, base_exists, base_usable));
}

/// How an analysis begins.
proof fn lemma_run_from_start(plotting: bool, base_exists: bool, base_usable: bool)
    ensures
        run(plotting, base_exists, base_usable) == seq![
            Step::Announce,
            Step::Sample,
            Step::Promote,
            Step::MakeNewDir,
        ] + run_from(Step::Outliers, plotting, base_exists, base_usable),
{
    let from_dir = run_from(Step::MakeNewDir, plotting, base_exists, base_usable);
    let from_promote = run_from(Step::Promote, plotting, base_exists, base_usable);
    let from_sample = run_from(Step::Sample, plotting, base_exists, base_usable);
    let rest = run_from(Step::Outliers, plotting, base_exists, base_usable);
    assert(from_dir == seq![Step::MakeNewDir] + rest);
    assert(from_promote == seq![Step::Promote] + from_dir);
    assert(from_sample == seq![Step::Sample] + from_promote);
    assert(run(plotting, base_exists, base_usable) == seq![Step::Announce] + from_sample);
    assert(run(plotting, base_exists, base_usable) =~= seq![
        Step::Announce,
        Step::Sample,
        Step::Promote,
        Step::MakeNewDir,
    ] + rest);
}

/// The stages of an analysis, written out: the stages that every analysis
/// has, with the three plots among them where plots are drawn; then, where
/// a base run exists, the reading of it; then, where it can be used, the
/// comparison.
pub proof fn lemma_run_written_out(plotting: bool, base_exists: bool, base_usable: bool)
    ensures
        run(plotting, base_exists, base_usable) == (if plotting {
            plotted_steps()
        } else {
            core_steps()
        }) + comparison_steps(base_exists, base_usable),
{
    lemma_run_from_save(plotting, base_exists, base_usable);
    lemma_run_from_estimates(plotting, base_exists, base_usable);
    lemma_run_from_regression(plotting, base_exists, base_usable);
    lemma_run_from_outliers(plotting, base_exists, base_usable);
    lemma_run_from_start(plotting, base_exists, base_usable);
    let tail = comparison_steps(base_exists, base_usable);
    if plotting {
        assert(run(plotting, base_exists, base_usable) =~= plotted_steps() + tail);
    } else {
        assert(run(plotting, base_exists, base_usable) =~= core_steps() + tail);
    }
}

/// The previous run is promoted exactly once in an analysis, and before
/// anything is written into the directory of the new run.
pub proof fn lemma_promotion_precedes_writes(plotting: bool, base_exists: bool, base_usable: bool)
    ensures
        run(plotting, base_exists, base_usable)[2] == Step::Promote,
        forall|i: int|
            0 <= i < run(plotting, base_exists, base_usable).len() && run(
                plotting,
                base_exists,
                base_usable,
            )[i] == Step::Promote ==> i == 2,
        forall|i: int|
            0 <= i < run(plotting, base_exists, base_usable).len() && (#[trigger] run(
                plotting,
                base_exists,
                base_usable,
            )[i]).writes() ==> 2 < i,
{
    lemma_run_written_out(plotting, base_exists, base_usable);
}

/// Where plots are not drawn, no stage of the analysis plots; where they
/// are, all three plots are stages of it.
pub proof fn lemma_plots_follow_the_option(plotting: bool, base_exists: bool, base_usable: bool)
    ensures
        !plotting ==> forall|i: int|
            0 <= i < run(plotting, base_exists, base_usable).len() ==> !(#[trigger] run(
                plotting,
                base_exists,
                base_usable,
            )[i]).plots(),
        plotting ==> run(plotting, base_exists, base_usable).contains(Step::PlotPdf) && run(
            plotting,
            base_exists,
            base_usable,
        ).contains(Step::PlotRegression) && run(plotting, base_exists, base_usable).contains(
            Step::PlotDistributions,
        ),
{
    lemma_run_written_out(plotting, base_exists, base_usable);
    if plotting {
        let r = run(plotting, base_exists, base_usable);
        assert(r[5] == Step::PlotPdf);
        assert(r[7] == Step::PlotRegression);
        assert(r[9] == Step::PlotDistributions);
    }
}

/// The new run is compared with the base exactly where a base run exists
/// and its measurements can be used; without a base run the store is not
/// even asked for them.
pub proof fn lemma_comparison_needs_a_base(plotting: bool, base_exists: bool, base_usable: bool)
    ensures
        run(plotting, base_exists, base_usable).contains(Step::Compare) <==> base_exists
            && base_usable,
        run(plotting, base_exists, base_usable).contains(Step::LoadBase) <==> base_exists,
{
    lemma_run_written_out(plotting, base_exists, base_usable);
    let r = run(plotting, base_exists, base_usable);
    if base_exists {
        if plotting {
            assert(r[13] == Step::LoadBase);
            if base_usable {
                assert(r[14] == Step::Compare);
            }
        } else {
            assert(r[10] == Step::LoadBase);
            if base_usable {
                assert(r[11] == Step::Compare);
            }
        }
    }
}

} // verus!
