//! Timing a piece of work, for the log.

use vstd::prelude::*;
use vstd::string::*;
use crate::report::{Fragment, Line, Piece};

verus! {

/// Reads the clock, by `time::precise_time_ns`: the value of a
/// high-resolution counter in nanoseconds since an epoch that is not
/// specified. Nothing is claimed of the value, not even that a later reading
/// is the larger one. On a platform without such a counter the call does not
/// return.
#[verifier::external_body]
fn now_ns() -> (t: u64) {
    time::precise_time_ns()
}

/// The nanoseconds from the reading `start` to the reading `stop`; none
/// where the clock ran backwards.
pub open spec fn span(start: u64, stop: u64) -> u64 {
    if stop >= start {
        (stop - start) as u64
    } else {
        0
    }
}

/// The nanoseconds from the reading `start` to the reading `stop`.
pub fn elapsed_ns(start: u64, stop: u64) -> (ns: u64)
    ensures
        ns == span(start, stop),
{
    if stop >= start {
        stop - start
    } else {
        0
    }
}

/// The line `<label> took <time>`.
pub open spec fn took_line(label: Seq<char>, ns: u64) -> Seq<Fragment> {
    seq![Fragment::Text(label + " took "@), Fragment::Nanoseconds(ns)]
}

/// The line that says how long the work named `label` took.
pub fn took(label: &str, ns: u64) -> (line: Line)
    ensures
        line.deep_view() == took_line(label@, ns),
{
    let mut text = String::from_str(label);
    text.append(" took ");
    let mut pieces: Vec<Piece> = Vec::new();
    pieces.push(Piece::Text(text));
    pieces.push(Piece::Nanoseconds(ns));
    let line = Line { pieces };
    assert(line.deep_view() =~= took_line(label@, ns));
    line
}

/// Does the work `thunk` between two readings of the clock. The outcome of
/// the work is handed back as it is, with the line for the log. How long
/// the work took is for the clock to say: the line holds some number of
/// nanoseconds.
pub fn trace<T, F: FnOnce() -> T>(label: &str, thunk: F) -> (out: (T, Line))
    requires
        call_requires(thunk, ()),
    ensures
        call_ensures(thunk, (), out.0),
        exists|ns: u64| out.1.deep_view() == took_line(label@, ns),
{
    let start = now_ns();
    let outcome = thunk();
    let stop = now_ns();
    let ns = elapsed_ns(start, stop);
    let line = took(label, ns);
    assert(line.deep_view() == took_line(label@, ns));
    (outcome, line)
}

} // verus!
