//! The analysis of a benchmark: which benchmarks a call runs, and what
//! each stage of a run makes of the numbers it is given.

pub mod compare;
pub mod schedule;

use vstd::prelude::*;
use vstd::string::*;
use crate::analysis::schedule::Step;
use crate::config::{Criterion, Plotting};
use crate::estimate::{all_statistics, Estimate, Estimates, Spread, Statistic};
use crate::report::{
    abs as report_abs,
    estimate_lines,
    outlier_lines,
    outliers as report_outliers,
    regression as report_regression,
    regression_lines,
    Fit,
    Line,
    Unit,
};
use crate::scalar::Scalar;
use crate::store::{fences_file, fences_path, group_member, member_id};
use crate::text::join3;
use crate::tukey::{occurrences, Fences, Label, LabeledSample};

verus! {

/// What is measured in a run.
#[derive(Clone, Debug, PartialEq, Eq)]
pub enum Routine {
    /// The function at `index` of those given, on the input at `input` of
    /// those given, or on none.
    Function { index: usize, input: Option<usize> },
    /// The program, started with `argument` if there is one.
    Program { argument: Option<String> },
}

/// A [`Routine`] with its text as a sequence of characters.
pub enum RoutineView {
    Function { index: usize, input: Option<usize> },
    Program { argument: Option<Seq<char>> },
}

impl DeepView for Routine {
    type V = RoutineView;

    open spec fn deep_view(&self) -> RoutineView {
        match *self {
            Routine::Function { index, input } => RoutineView::Function { index, input },
            Routine::Program { argument } => RoutineView::Program {
                argument: match argument {
                    Some(a) => Some(a@),
                    None => None,
                },
            },
        }
    }
}

/// One thing to do for a call of the analysis.
#[derive(Clone, Debug, PartialEq, Eq)]
pub enum Job {
    /// Benchmark `routine` under the id `id`.
    Run { id: String, routine: Routine },
    /// Write `text` to the standard output, as it is.
    Print { text: String },
    /// Plot the summary of the benchmarks under `id`.
    Summarize { id: String },
}

/// A [`Job`] with its text as sequences of characters.
pub enum Task {
    Run { id: Seq<char>, routine: RoutineView },
    Print { text: Seq<char> },
    Summarize { id: Seq<char> },
}

impl DeepView for Job {
    type V = Task;

    open spec fn deep_view(&self) -> Task {
        match *self {
            Job::Run { id, routine } => Task::Run { id: id@, routine: routine.deep_view() },
            Job::Print { text } => Task::Print { text: text@ },
            Job::Summarize { id } => Task::Summarize { id: id@ },
        }
    }
}

/// What closes a group of benchmarks: with plots, the summary plot between
/// two messages; without, one message that says so.
pub open spec fn summary(id: Seq<char>, plotting: Plotting) -> Seq<Task> {
    if plotting == Plotting::Enabled {
        seq![
            Task::Print { text: "Summarizing results of "@ + id + "... "@ },
            Task::Summarize { id },
            Task::Print { text: "DONE\n\n"@ },
        ]
    } else {
        seq![Task::Print { text: "Plotting disabled, skipping summarization\n"@ }]
    }
}

/// Closes the group of benchmarks `id`.
pub fn summarize(id: &str, criterion: &Criterion) -> (jobs: Vec<Job>)
    ensures
        jobs.deep_view() == summary(id@, criterion.plotting),
{
    let mut jobs: Vec<Job> = Vec::new();
    if criterion.plotting.is_enabled() {
        jobs.push(Job::Print { text: join3("Summarizing results of ", id, "... ") });
        jobs.push(Job::Summarize { id: String::from_str(id) });
        jobs.push(Job::Print { text: String::from_str("DONE\n\n") });
    } else {
        jobs.push(
            Job::Print { text: String::from_str("Plotting disabled, skipping summarization\n") },
        );
    }
    assert(jobs.deep_view() =~= summary(id@, criterion.plotting));
    jobs
}

/// One benchmark, with an empty line after it.
pub open spec fn single(id: Seq<char>, routine: RoutineView) -> Seq<Task> {
    seq![Task::Run { id, routine }, Task::Print { text: "\n"@ }]
}

/// Benchmarks one function under `id`.
pub fn function(id: &str) -> (jobs: Vec<Job>)
    ensures
        jobs.deep_view() == single(id@, RoutineView::Function { index: 0, input: None }),
{
    let mut jobs: Vec<Job> = Vec::new();
    jobs.push(
        Job::Run { id: String::from_str(id), routine: Routine::Function { index: 0, input: None } },
    );
    jobs.push(Job::Print { text: String::from_str("\n") });
    assert(jobs.deep_view() =~= single(id@, RoutineView::Function { index: 0, input: None }));
    jobs
}

/// Benchmarks one program under `id`.
pub fn program(id: &str) -> (jobs: Vec<Job>)
    ensures
        jobs.deep_view() == single(id@, RoutineView::Program { argument: None }),
{
    let mut jobs: Vec<Job> = Vec::new();
    jobs.push(Job::Run { id: String::from_str(id), routine: Routine::Program { argument: None } });
    jobs.push(Job::Print { text: String::from_str("\n") });
    assert(jobs.deep_view() =~= single(id@, RoutineView::Program { argument: None }));
    jobs
}

/// One benchmark per function: the function at `i` runs as `id/names[i]`.
pub open spec fn function_runs(id: Seq<char>, names: Seq<Seq<char>>) -> Seq<Task> {
    Seq::new(
        names.len(),
        |i: int|
            Task::Run {
                id: member_id(id, names[i]),
                routine: RoutineView::Function { index: i as usize, input: None },
            },
    )
}

/// One benchmark per input: the one function runs on the input at `i` as
/// `id/inputs[i]`.
pub open spec fn input_runs(id: Seq<char>, inputs: Seq<Seq<char>>) -> Seq<Task> {
    Seq::new(
        inputs.len(),
        |i: int|
            Task::Run {
                id: member_id(id, inputs[i]),
                routine: RoutineView::Function { index: 0, input: Some(i as usize) },
            },
    )
}

/// One benchmark per input: the program runs with the input at `i` as its
/// argument, as `id/inputs[i]`, and an empty line follows each.
pub open spec fn program_runs(id: Seq<char>, inputs: Seq<Seq<char>>) -> Seq<Task> {
    Seq::new(
        2 * inputs.len(),
        |k: int|
            if k % 2 == 0 {
                Task::Run {
                    id: member_id(id, inputs[k / 2]),
                    routine: RoutineView::Program { argument: Some(inputs[k / 2]) },
                }
            } else {
                Task::Print { text: "\n"@ }
            },
    )
}

fn append_jobs(jobs: &mut Vec<Job>, more: Vec<Job>)
    ensures
        final(jobs).deep_view() == old(jobs).deep_view() + more.deep_view(),
{
    let mut more = more;
    let ghost before = jobs.deep_view();
    let ghost added = more.deep_view();
    jobs.append(&mut more);
    assert(jobs.deep_view() =~= before + added);
}

/// Benchmarks several functions as the group `id`, each under its own
/// name, then closes the group.
pub fn functions(id: &str, names: &Vec<String>, criterion: &Criterion) -> (jobs: Vec<Job>)
    ensures
        jobs.deep_view() == function_runs(id@, names.deep_view()) + summary(
            id@,
            criterion.plotting,
        ),
{
    let mut jobs: Vec<Job> = Vec::new();
    let mut i: usize = 0;
    while i < names.len()
        invariant
            i <= names.len(),
            jobs.len() == i,
            forall|j: int|
                0 <= j < i ==> (#[trigger] jobs[j]).deep_view() == function_runs(
                    id@,
                    names.deep_view(),
                )[j],
        decreases names.len() - i,
    {
        let member = group_member(id, names[i].as_str());
        jobs.push(Job::Run { id: member, routine: Routine::Function { index: i, input: None } });
        i += 1;
    }
    assert(jobs.deep_view() =~= function_runs(id@, names.deep_view()));
    append_jobs(&mut jobs, summarize(id, criterion));
    jobs
}

/// Benchmarks one function on several inputs as the group `id`, each
/// under the text of its input, then closes the group.
pub fn function_with_inputs(id: &str, inputs: &Vec<String>, criterion: &Criterion) -> (jobs: Vec<
    Job,
>)
    ensures
        jobs.deep_view() == input_runs(id@, inputs.deep_view()) + summary(id@, criterion.plotting),
{
    let mut jobs: Vec<Job> = Vec::new();
    let mut i: usize = 0;
    while i < inputs.len()
        invariant
            i <= inputs.len(),
            jobs.len() == i,
            forall|j: int|
                0 <= j < i ==> (#[trigger] jobs[j]).deep_view() == input_runs(
                    id@,
                    inputs.deep_view(),
                )[j],
        decreases inputs.len() - i,
    {
        let member = group_member(id, inputs[i].as_str());
        jobs.push(Job::Run { id: member, routine: Routine::Function { index: 0, input: Some(i) } });
        i += 1;
    }
    assert(jobs.deep_view() =~= input_runs(id@, inputs.deep_view()));
    append_jobs(&mut jobs, summarize(id, criterion));
    jobs
}

/// Benchmarks one program on several inputs as the group `id`, each under
/// the text of its input, which is also the program's argument, then closes
/// the group.
pub fn program_with_inputs(id: &str, inputs: &Vec<String>, criterion: &Criterion) -> (jobs: Vec<
    Job,
>)
    ensures
        jobs.deep_view() == program_runs(id@, inputs.deep_view()) + summary(
            id@,
            criterion.plotting,
        ),
{
    let mut jobs: Vec<Job> = Vec::new();
    let mut i: usize = 0;
    while i < inputs.len()
        invariant
            i <= inputs.len(),
            jobs.len() == 2 * i,
            forall|k: int|
                0 <= k < 2 * i ==> (#[trigger] jobs[k]).deep_view() == program_runs(
                    id@,
                    inputs.deep_view(),
                )[k],
        decreases inputs.len() - i,
    {
        let member = group_member(id, inputs[i].as_str());
        let argument = inputs[i].clone();
        jobs.push(Job::Run { id: member, routine: Routine::Program { argument: Some(argument) } });
        jobs.push(Job::Print { text: String::from_str("\n") });
        i += 1;
    }
    assert(jobs.deep_view() =~= program_runs(id@, inputs.deep_view()));
    append_jobs(&mut jobs, summarize(id, criterion));
    jobs
}

/// The line that opens a stage, for the stages that have one.
pub open spec fn heading_text(step: Step, id: Seq<char>) -> Option<Seq<char>> {
    match step {
        Step::Announce => Some("Benchmarking "@ + id),
        Step::Regression => Some("> Performing linear regression"@),
        Step::Estimates => Some("> Estimating the statistics of the sample"@),
        _ => None,
    }
}

/// The line to write when `step` begins in the analysis of `id`, if the
/// stage opens with one.
pub fn heading(step: Step, id: &str) -> (line: Option<String>)
    ensures
        match line {
            Some(text) => heading_text(step, id@) == Some(text@),
            None => heading_text(step, id@) is None,
        },
{
    match step {
        Step::Announce => {
            let mut text = String::from_str("Benchmarking ");
            text.append(id);
            Some(text)
        },
        Step::Regression => Some(String::from_str("> Performing linear regression")),
        Step::Estimates => Some(String::from_str("> Estimating the statistics of the sample")),
        _ => None,
    }
}

/// The outcome of the stage that labels the outliers.
#[derive(Debug)]
pub struct Outliers {
    /// The sample under its fences.
    pub sample: LabeledSample,
    /// The report.
    pub report: Vec<Line>,
    /// The file to save the fences in.
    pub fences_file: String,
}

/// Labels the outliers among the average times of the benchmark `id`,
/// reports them, and names the file that takes the fences. The sample
/// keeps every observation.
pub fn outliers(id: &str, avg_times: Vec<Scalar>, fences: Fences) -> (out: Outliers)
    ensures
        out.sample.observations() == avg_times@,
        out.sample.bounds() == fences,
        out.report.deep_view() == outlier_lines(
            occurrences(out.sample.labels(), Label::LowSevere) as usize,
            occurrences(out.sample.labels(), Label::LowMild) as usize,
            occurrences(out.sample.labels(), Label::HighMild) as usize,
            occurrences(out.sample.labels(), Label::HighSevere) as usize,
            avg_times@.len() as usize,
        ),
        out.fences_file@ == fences_path(id@),
{
    let sample = LabeledSample::classify(avg_times, fences);
    let report = report_outliers(&sample);
    Outliers { sample, report, fences_file: fences_file(id) }
}

/// A statistic of a sample: its value on the sample itself, and the spread
/// of its values on the resamples.
#[derive(Clone, Copy, Debug, PartialEq, Eq, Structural)]
pub struct Resampled {
    pub point: Scalar,
    pub spread: Spread,
}

impl Resampled {
    /// The estimate at the confidence level `cl`.
    pub open spec fn estimate(self, cl: Scalar) -> Estimate {
        Estimate::of(self.point, self.spread, cl)
    }
}

/// The coefficient of determination of a slope at either end of its
/// confidence interval.
#[derive(Clone, Copy, Debug, PartialEq, Eq, Structural)]
pub struct Determination {
    pub at_lower_bound: Scalar,
    pub at_upper_bound: Scalar,
}

/// Turns a fitted and resampled slope into its estimate and reports it.
/// The point is the slope fitted to the data as measured; the interval and
/// the standard error come from the resamples.
pub fn regression(slope: Resampled, fit: Determination, criterion: &Criterion) -> (out: (
    Estimate,
    Vec<Line>,
))
    ensures
        out.0 == slope.estimate(criterion.confidence_level),
        out.1.deep_view() == regression_lines(
            Fit { slope: slope.spread.lower_bound, r_squared: fit.at_lower_bound },
            Fit { slope: slope.spread.upper_bound, r_squared: fit.at_upper_bound },
        ),
{
    let estimate = Estimate::new(slope.point, slope.spread, criterion.confidence_level);
    let report = report_regression(
        Fit { slope: slope.spread.lower_bound, r_squared: fit.at_lower_bound },
        Fit { slope: slope.spread.upper_bound, r_squared: fit.at_upper_bound },
    );
    (estimate, report)
}

/// The four statistics of a sample of times, each with its resamples. One
/// bootstrap yields all four, so that they share their resamples.
#[derive(Clone, Copy, Debug, PartialEq, Eq, Structural)]
pub struct Univariate {
    pub mean: Resampled,
    pub median: Resampled,
    pub median_abs_dev: Resampled,
    pub std_dev: Resampled,
}

impl Univariate {
    /// The estimates of the four statistics at the confidence level `cl`.
    pub open spec fn table(self, cl: Scalar) -> Map<Statistic, Estimate> {
        Map::<Statistic, Estimate>::empty().insert(Statistic::Mean, self.mean.estimate(cl)).insert(
            Statistic::Median,
            self.median.estimate(cl),
        ).insert(Statistic::MedianAbsDev, self.median_abs_dev.estimate(cl)).insert(
            Statistic::StdDev,
            self.std_dev.estimate(cl),
        )
    }

    fn tabulate(&self, cl: Scalar) -> (t: Estimates)
        ensures
            t@ == self.table(cl),
    {
        let mut t = Estimates::new();
        t.insert(Statistic::Mean, Estimate::new(self.mean.point, self.mean.spread, cl));
        t.insert(Statistic::Median, Estimate::new(self.median.point, self.median.spread, cl));
        t.insert(
            Statistic::MedianAbsDev,
            Estimate::new(self.median_abs_dev.point, self.median_abs_dev.spread, cl),
        );
        t.insert(Statistic::StdDev, Estimate::new(self.std_dev.point, self.std_dev.spread, cl));
        t
    }
}

/// Turns the statistics of the sample into their estimates and reports
/// them: mean, median, median absolute deviation and standard deviation,
/// and no other.
pub fn estimates(statistics: &Univariate, criterion: &Criterion) -> (out: (Estimates, Vec<Line>))
    ensures
        out.0@ == statistics.table(criterion.confidence_level),
        out.1.deep_view() == estimate_lines(out.0@, Unit::Time),
{
    let table = statistics.tabulate(criterion.confidence_level);
    let report = report_abs(&table);
    (table, report)
}

/// Adds the estimate of the slope to the estimates of the sample.
pub fn with_slope(estimates: Estimates, slope: Estimate) -> (all: Estimates)
    ensures
        all@ == estimates@.insert(Statistic::Slope, slope),
{
    let mut all = estimates;
    all.insert(Statistic::Slope, slope);
    all
}

/// Once the slope has joined the estimates of the sample, every statistic
/// has its estimate: the table has all five keys and no entry else.
pub proof fn lemma_estimates_are_complete(statistics: Univariate, cl: Scalar, slope: Estimate)
    ensures
        statistics.table(cl).insert(Statistic::Slope, slope).dom() == all_statistics(),
        statistics.table(cl).dom() == all_statistics().remove(Statistic::Slope),
{
    assert(statistics.table(cl).insert(Statistic::Slope, slope).dom() =~= all_statistics());
    assert(statistics.table(cl).dom() =~= all_statistics().remove(Statistic::Slope));
}

} // verus!
