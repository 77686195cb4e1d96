//! The textual report: what each line says, number by number.
//!
//! A line is a row of pieces. Text is final; a number is handed on with the
//! manner in which it is to be written, since writing a double in decimal is
//! floating-point work. Each line ends where a line of output ends.

use vstd::prelude::*;
use vstd::string::*;
use crate::estimate::{listing, Estimate, Estimates, Statistic};
use crate::scalar::Scalar;
use crate::text::{pad_left, right_aligned};
use crate::tukey::{occurrences, Label, LabeledSample};

verus! {

/// One piece of a line.
#[derive(Clone, Debug, PartialEq, Eq)]
pub enum Piece {
    /// Text, written as it is.
    Text(String),
    /// A time in nanoseconds, written with a fitting unit.
    Time(Scalar),
    /// A whole number of nanoseconds, written like a time.
    Nanoseconds(u64),
    /// A relative change, written as a signed percentage.
    Change(Scalar),
    /// A number written with seven decimals.
    Fixed(Scalar),
    /// A whole number, written in decimal.
    Count(usize),
    /// `part` out of `whole` in percent, written with two decimals.
    Percent { part: usize, whole: usize },
}

/// What a [`Piece`] holds, with its text as a sequence of characters.
pub enum Fragment {
    Text(Seq<char>),
    Time(Scalar),
    Nanoseconds(u64),
    Change(Scalar),
    Fixed(Scalar),
    Count(usize),
    Percent { part: usize, whole: usize },
}

impl DeepView for Piece {
    type V = Fragment;

    open spec fn deep_view(&self) -> Fragment {
        match *self {
            Piece::Text(s) => Fragment::Text(s@),
            Piece::Time(x) => Fragment::Time(x),
            Piece::Nanoseconds(n) => Fragment::Nanoseconds(n),
            Piece::Change(x) => Fragment::Change(x),
            Piece::Fixed(x) => Fragment::Fixed(x),
            Piece::Count(n) => Fragment::Count(n),
            Piece::Percent { part, whole } => Fragment::Percent { part, whole },
        }
    }
}

/// One line of the report.
#[derive(Clone, Debug, PartialEq, Eq)]
pub struct Line {
    pub pieces: Vec<Piece>,
}

impl DeepView for Line {
    type V = Seq<Fragment>;

    open spec fn deep_view(&self) -> Seq<Fragment> {
        self.pieces.deep_view()
    }
}

/// How the bounds of an interval are written.
#[derive(Clone, Copy, Debug, PartialEq, Eq, Structural)]
pub enum Unit {
    /// As times.
    Time,
    /// As relative changes.
    Change,
}

impl Unit {
    /// The fragment that writes `x` in this unit.
    pub open spec fn fragment(self, x: Scalar) -> Fragment {
        match self {
            Unit::Time => Fragment::Time(x),
            Unit::Change => Fragment::Change(x),
        }
    }

    fn piece(self, x: Scalar) -> (p: Piece)
        ensures
            p.deep_view() == self.fragment(x),
    {
        match self {
            Unit::Time => Piece::Time(x),
            Unit::Change => Piece::Change(x),
        }
    }
}

/// The width of the field that holds a line's name.
pub const NAME_WIDTH: usize = 6;

/// The line `  > <name> [<lower> <upper>]`, the name aligned to the right
/// in six characters.
pub open spec fn interval_line(name: Seq<char>, lower: Fragment, upper: Fragment) -> Seq<
    Fragment,
> {
    seq![
        Fragment::Text("  > "@ + right_aligned(name, NAME_WIDTH as nat) + " ["@),
        lower,
        Fragment::Text(" "@),
        upper,
        Fragment::Text("]"@),
    ]
}

/// The line of one estimate: its statistic's label and the two bounds of
/// its confidence interval.
pub open spec fn estimate_line(s: Statistic, e: Estimate, unit: Unit) -> Seq<Fragment> {
    interval_line(
        s.label_text(),
        unit.fragment(e.confidence_interval.lower_bound),
        unit.fragment(e.confidence_interval.upper_bound),
    )
}

/// One line per estimate, in the order of [`listing`].
pub open spec fn estimate_lines(m: Map<Statistic, Estimate>, unit: Unit) -> Seq<Seq<Fragment>> {
    Seq::new(
        listing(m).len(),
        |i: int| estimate_line(listing(m)[i].0, listing(m)[i].1, unit),
    )
}

fn write_interval(name: &str, lower: Piece, upper: Piece) -> (line: Line)
    ensures
        line.deep_view() == interval_line(name@, lower.deep_view(), upper.deep_view()),
{
    let padded = pad_left(name, NAME_WIDTH);
    let mut head = String::from_str("  > ");
    head.append(padded.as_str());
    head.append(" [");
    let mut pieces: Vec<Piece> = Vec::new();
    pieces.push(Piece::Text(head));
    pieces.push(lower);
    pieces.push(Piece::Text(String::from_str(" ")));
    pieces.push(upper);
    pieces.push(Piece::Text(String::from_str("]")));
    let line = Line { pieces };
    assert(line.deep_view() =~= interval_line(name@, lower.deep_view(), upper.deep_view()));
    line
}

fn write_estimates(estimates: &Estimates, unit: Unit) -> (lines: Vec<Line>)
    ensures
        lines.deep_view() == estimate_lines(estimates@, unit),
{
    let entries = estimates.entries();
    let mut lines: Vec<Line> = Vec::new();
    let mut i: usize = 0;
    while i < entries.len()
        invariant
            i <= entries.len(),
            entries@ == listing(estimates@),
            lines.len() == i,
            forall|j: int|
                0 <= j < i ==> (#[trigger] lines[j]).deep_view() == estimate_line(
                    entries[j].0,
                    entries[j].1,
                    unit,
                ),
        decreases entries.len() - i,
    {
        let (s, e) = entries[i];
        let line = write_interval(
            s.label(),
            unit.piece(e.confidence_interval.lower_bound),
            unit.piece(e.confidence_interval.upper_bound),
        );
        lines.push(line);
        i += 1;
    }
    assert(lines.deep_view() =~= estimate_lines(estimates@, unit));
    lines
}

/// Reports absolute estimates: one line each, the bounds written as times.
pub fn abs(estimates: &Estimates) -> (lines: Vec<Line>)
    ensures
        lines.deep_view() == estimate_lines(estimates@, Unit::Time),
{
    write_estimates(estimates, Unit::Time)
}

/// Reports relative estimates: one line each, the bounds written as signed
/// percentages.
pub fn rel(estimates: &Estimates) -> (lines: Vec<Line>)
    ensures
        lines.deep_view() == estimate_lines(estimates@, Unit::Change),
{
    write_estimates(estimates, Unit::Change)
}

/// The headline of the outlier report.
pub open spec fn outlier_headline(outliers: usize, size: usize) -> Seq<Fragment> {
    seq![
        Fragment::Text("> Found "@),
        Fragment::Count(outliers),
        Fragment::Text(" outliers among "@),
        Fragment::Count(size),
        Fragment::Text(" measurements ("@),
        Fragment::Percent { part: outliers, whole: size },
        Fragment::Text("%)"@),
    ]
}

/// The line of one band, or nothing where the band is empty.
pub open spec fn band_lines(n: usize, size: usize, name: Seq<char>) -> Seq<Seq<Fragment>> {
    if n == 0 {
        Seq::empty()
    } else {
        seq![
            seq![
                Fragment::Text("  > "@),
                Fragment::Count(n),
                Fragment::Text(" ("@),
                Fragment::Percent { part: n, whole: size },
                Fragment::Text("%) "@ + name),
            ],
        ]
    }
}

/// The outlier report for the four counts of outliers in a sample of `size`
/// observations: nothing without outliers; else the headline and one line
/// for each band that is not empty, from severe low to severe high.
pub open spec fn outlier_lines(los: usize, lom: usize, him: usize, his: usize, size: usize) -> Seq<
    Seq<Fragment>,
> {
    if los + lom + him + his == 0 {
        Seq::empty()
    } else {
        seq![outlier_headline((los + lom + him + his) as usize, size)] + band_lines(
            los,
            size,
            "low severe"@,
        ) + band_lines(lom, size, "low mild"@) + band_lines(him, size, "high mild"@) + band_lines(
            his,
            size,
            "high severe"@,
        )
    }
}

fn write_band(lines: &mut Vec<Line>, n: usize, size: usize, name: &str)
    ensures
        final(lines).deep_view() == old(lines).deep_view() + band_lines(n, size, name@),
{
    if n != 0 {
        let mut tail = String::from_str("%) ");
        tail.append(name);
        let mut pieces: Vec<Piece> = Vec::new();
        pieces.push(Piece::Text(String::from_str("  > ")));
        pieces.push(Piece::Count(n));
        pieces.push(Piece::Text(String::from_str(" (")));
        pieces.push(Piece::Percent { part: n, whole: size });
        pieces.push(Piece::Text(tail));
        let line = Line { pieces };
        assert(line.deep_view() =~= band_lines(n, size, name@)[0]);
        lines.push(line);
        assert(lines.deep_view() =~= old(lines).deep_view() + band_lines(n, size, name@));
    } else {
        assert(lines.deep_view() =~= old(lines).deep_view() + band_lines(n, size, name@));
    }
}

/// Reports the outliers of a labelled sample. The counts are those of
/// [`LabeledSample::count`]; the sample's size is the whole of every
/// percentage.
pub fn outliers(sample: &LabeledSample) -> (lines: Vec<Line>)
    ensures
        lines.deep_view() == outlier_lines(
            occurrences(sample.labels(), Label::LowSevere) as usize,
            occurrences(sample.labels(), Label::LowMild) as usize,
            occurrences(sample.labels(), Label::HighMild) as usize,
            occurrences(sample.labels(), Label::HighSevere) as usize,
            sample.observations().len() as usize,
        ),
{
    let (los, lom, _, him, his) = sample.count();
    let size = sample.len();
    let noutliers = los + lom + him + his;
    let mut lines: Vec<Line> = Vec::new();
    if noutliers == 0 {
        assert(lines.deep_view() =~= outlier_lines(los, lom, him, his, size));
        return lines;
    }
    let mut pieces: Vec<Piece> = Vec::new();
    pieces.push(Piece::Text(String::from_str("> Found ")));
    pieces.push(Piece::Count(noutliers));
    pieces.push(Piece::Text(String::from_str(" outliers among ")));
    pieces.push(Piece::Count(size));
    pieces.push(Piece::Text(String::from_str(" measurements (")));
    pieces.push(Piece::Percent { part: noutliers, whole: size });
    pieces.push(Piece::Text(String::from_str("%)")));
    let headline = Line { pieces };
    assert(headline.deep_view() =~= outlier_headline(noutliers, size));
    lines.push(headline);
    assert(lines.deep_view() =~= seq![outlier_headline(noutliers, size)]);
    write_band(&mut lines, los, size, "low severe");
    write_band(&mut lines, lom, size, "low mild");
    write_band(&mut lines, him, size, "high mild");
    write_band(&mut lines, his, size, "high severe");
    lines
}

/// A slope with the coefficient of determination that it reaches on the data.
#[derive(Clone, Copy, Debug, PartialEq, Eq, Structural)]
pub struct Fit {
    pub slope: Scalar,
    pub r_squared: Scalar,
}

/// The line `  >    R^2  <lower> <upper>`, both numbers with seven decimals.
pub open spec fn r_squared_line(lower: Scalar, upper: Scalar) -> Seq<Fragment> {
    seq![
        Fragment::Text("  > "@ + right_aligned("R^2"@, NAME_WIDTH as nat) + "  "@),
        Fragment::Fixed(lower),
        Fragment::Text(" "@),
        Fragment::Fixed(upper),
    ]
}

/// The regression report for the two ends of the slope's confidence
/// interval: the interval itself, then the coefficient of determination at
/// either end.
pub open spec fn regression_lines(lb: Fit, ub: Fit) -> Seq<Seq<Fragment>> {
    seq![
        interval_line("slope"@, Fragment::Time(lb.slope), Fragment::Time(ub.slope)),
        r_squared_line(lb.r_squared, ub.r_squared),
    ]
}

/// Reports a regression: the confidence interval of the slope, and the
/// coefficient of determination of the slope at either end of it.
pub fn regression(lb: Fit, ub: Fit) -> (lines: Vec<Line>)
    ensures
        lines.deep_view() == regression_lines(lb, ub),
{
    let first = write_interval("slope", Piece::Time(lb.slope), Piece::Time(ub.slope));
    let padded = pad_left("R^2", NAME_WIDTH);
    let mut head = String::from_str("  > ");
    head.append(padded.as_str());
    head.append("  ");
    let mut pieces: Vec<Piece> = Vec::new();
    pieces.push(Piece::Text(head));
    pieces.push(Piece::Fixed(lb.r_squared));
    pieces.push(Piece::Text(String::from_str(" ")));
    pieces.push(Piece::Fixed(ub.r_squared));
    let second = Line { pieces };
    assert(second.deep_view() =~= r_squared_line(lb.r_squared, ub.r_squared));
    let mut lines: Vec<Line> = Vec::new();
    lines.push(first);
    lines.push(second);
    assert(lines.deep_view() =~= regression_lines(lb, ub));
    lines
}

} // verus!
