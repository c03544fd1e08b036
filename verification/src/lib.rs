//! Pay for a single babysitting shift on a wrapping clock.
//!
//! A shift is three readings on a twelve-point dial: arrival, departure and
//! the child's bedtime. The dial wraps past midnight, so the clock geometry
//! lives in an immutable [`schedule::Schedule`]: readings below its
//! `earliest_arrival` boundary lie in the early-morning segment, the rest in
//! the evening segment. The schedule validates a shift and splits it into
//! three pay bands (before bedtime, after bedtime, after midnight); the
//! [`earnings::Babysitter`] multiplies each band by its rate and sums.

pub mod earnings;
pub mod schedule;
