use criterion::estimate::{Estimate, Estimates, Spread, Statistic};
use criterion::report::{abs, outliers, regression, rel, Fit, Line, Piece};
use criterion::scalar::Scalar;
use criterion::tukey::{Fences, LabeledSample};

fn s(x: f64) -> Scalar {
    Scalar::from_bits(x.to_bits())
}

fn f(x: Scalar) -> f64 {
    f64::from_bits(x.to_bits())
}

fn render(line: &Line) -> String {
    let mut out = String::new();
    for piece in line.pieces.iter() {
        let text = match piece {
            Piece::Text(t) => t.clone(),
            Piece::Time(x) => format!("{} ns", f(*x)),
            Piece::Nanoseconds(n) => format!("{} ns", n),
            Piece::Change(x) => format!("{:+}%", f(*x) * 100.0),
            Piece::Fixed(x) => format!("{:0.7}", f(*x)),
            Piece::Count(n) => format!("{}", n),
            Piece::Percent { part, whole } => {
                format!("{:.2}", 100.0 * *part as f64 / *whole as f64)
            }
        };
        out.push_str(&text);
    }
    out
}

fn rendered(lines: &Vec<Line>) -> Vec<String> {
    lines.iter().map(render).collect()
}

fn estimate(lb: f64, ub: f64) -> Estimate {
    Estimate::new(
        s((lb + ub) / 2.0),
        Spread { lower_bound: s(lb), upper_bound: s(ub), standard_error: s(0.5) },
        s(0.95),
    )
}

fn four() -> Estimates {
    let mut t = Estimates::new();
    t.insert(Statistic::StdDev, estimate(7.0, 8.0));
    t.insert(Statistic::MedianAbsDev, estimate(5.0, 6.0));
    t.insert(Statistic::Median, estimate(3.0, 4.0));
    t.insert(Statistic::Mean, estimate(1.0, 2.0));
    t
}

#[test]
fn abs_writes_one_line_per_estimate() {
    assert_eq!(
        rendered(&abs(&four())),
        vec![
            "  >   mean [1 ns 2 ns]",
            "  > median [3 ns 4 ns]",
            "  >    MAD [5 ns 6 ns]",
            "  >     SD [7 ns 8 ns]",
        ]
    );
}

#[test]
fn abs_writes_the_bounds_as_times() {
    let lines = abs(&four());
    assert_eq!(
        lines[0].pieces,
        vec![
            Piece::Text("  >   mean [".to_string()),
            Piece::Time(s(1.0)),
            Piece::Text(" ".to_string()),
            Piece::Time(s(2.0)),
            Piece::Text("]".to_string()),
        ]
    );
}

#[test]
fn abs_of_nothing_writes_nothing() {
    assert!(abs(&Estimates::new()).is_empty());
    assert!(rel(&Estimates::new()).is_empty());
}

#[test]
fn rel_writes_the_bounds_as_changes() {
    let mut t = Estimates::new();
    t.insert(Statistic::Mean, estimate(-0.02, 0.03));
    t.insert(Statistic::Slope, estimate(0.09, 0.11));
    let lines = rel(&t);
    assert_eq!(lines.len(), 2);
    assert_eq!(
        lines[0].pieces,
        vec![
            Piece::Text("  >   mean [".to_string()),
            Piece::Change(s(-0.02)),
            Piece::Text(" ".to_string()),
            Piece::Change(s(0.03)),
            Piece::Text("]".to_string()),
        ]
    );
    assert_eq!(
        lines[1].pieces,
        vec![
            Piece::Text("  >  slope [".to_string()),
            Piece::Change(s(0.09)),
            Piece::Text(" ".to_string()),
            Piece::Change(s(0.11)),
            Piece::Text("]".to_string()),
        ]
    );
}

fn sample(xs: &[f64]) -> LabeledSample {
    let fences = Fences::new(s(-10.0), s(0.0), s(10.0), s(20.0)).unwrap();
    LabeledSample::classify(xs.iter().map(|&x| s(x)).collect(), fences)
}

#[test]
fn outliers_are_silent_without_outliers() {
    assert!(outliers(&sample(&[1.0, 2.0, 3.0, 0.0, 10.0])).is_empty());
}

#[test]
fn outliers_name_each_band_that_is_not_empty() {
    let xs = [-11.0, -12.0, -1.0, 1.0, 2.0, 3.0, 4.0, 11.0, 12.0, 13.0, 25.0];
    assert_eq!(
        rendered(&outliers(&sample(&xs))),
        vec![
            "> Found 7 outliers among 11 measurements (63.64%)",
            "  > 2 (18.18%) low severe",
            "  > 1 (9.09%) low mild",
            "  > 3 (27.27%) high mild",
            "  > 1 (9.09%) high severe",
        ]
    );
}

#[test]
fn outliers_skip_the_empty_bands() {
    let xs = [1.0, 2.0, 3.0, 4.0, 5.0, 6.0, 7.0, 8.0, 9.0, 1000.0];
    assert_eq!(
        rendered(&outliers(&sample(&xs))),
        vec!["> Found 1 outliers among 10 measurements (10.00%)", "  > 1 (10.00%) high severe"]
    );
    let xs = [1.0, 2.0, -5.0, 4.0];
    assert_eq!(
        rendered(&outliers(&sample(&xs))),
        vec!["> Found 1 outliers among 4 measurements (25.00%)", "  > 1 (25.00%) low mild"]
    );
}

#[test]
fn outliers_hand_on_counts_and_not_text() {
    let lines = outliers(&sample(&[1.0, 30.0]));
    assert_eq!(
        lines[0].pieces,
        vec![
            Piece::Text("> Found ".to_string()),
            Piece::Count(1),
            Piece::Text(" outliers among ".to_string()),
            Piece::Count(2),
            Piece::Text(" measurements (".to_string()),
            Piece::Percent { part: 1, whole: 2 },
            Piece::Text("%)".to_string()),
        ]
    );
    assert_eq!(
        lines[1].pieces,
        vec![
            Piece::Text("  > ".to_string()),
            Piece::Count(1),
            Piece::Text(" (".to_string()),
            Piece::Percent { part: 1, whole: 2 },
            Piece::Text("%) high severe".to_string()),
        ]
    );
}

#[test]
fn regression_writes_the_slope_and_the_fit() {
    let lb = Fit { slope: s(24.5), r_squared: s(0.7905783) };
    let ub = Fit { slope: s(25.5), r_squared: s(0.78994) };
    assert_eq!(
        rendered(&regression(lb, ub)),
        vec!["  >  slope [24.5 ns 25.5 ns]", "  >    R^2  0.7905783 0.7899400"]
    );
}
