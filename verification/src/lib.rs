//! Decision core of a statistics-driven benchmarking engine.
//!
//! The numerical work of an analysis run (bootstrap resampling, quantiles,
//! least squares) is floating-point arithmetic and happens outside this
//! crate. What lives here is everything that is decided around it: how
//! observations are labelled against Tukey fences, how estimates are keyed
//! and assembled, when a change counts as a regression, in which order the
//! stages of a run follow each other, what is written where, how the run
//! directories are promoted, and what the textual report says.
//!
//! Real numbers cross the boundary as [`scalar::Scalar`] values, the IEEE-754
//! binary64 encoding of a double, which this crate orders exactly without
//! ever doing arithmetic on it.
//!
//! Everything here is proved against its contract but the reading of the
//! clock in [`trace`], of which nothing is claimed.

pub mod analysis;
pub mod config;
pub mod estimate;
pub mod measurement;
pub mod report;
pub mod scalar;
pub mod store;
pub mod text;
pub mod trace;
pub mod tukey;
