//! Multi-resolution incremental statistics over bounded observation windows.
//!
//! Each series keeps the trailing `MAX_POINTS_SIZE` observations and, after
//! every batch append, a table of running aggregates (min, max, sum,
//! sum of squares) for eight trailing-window lengths, the powers of ten from
//! 10^1 to 10^8. Queries derive min, max, last value, average and population
//! variance for one of those window lengths in constant time.
//!
//! Observations are IEEE-754 double-precision values, carried everywhere as
//! their raw 64-bit patterns; the handful of double operations the engine
//! needs live behind trusted wrappers in [`float_bits`].

pub mod float_bits;
pub mod models;
pub mod query;
