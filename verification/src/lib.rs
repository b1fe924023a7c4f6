//! Core engine for a slot-machine style server roulette: a filtered,
//! paginated listing of game servers, a uniformly random winner pick,
//! a non-linear braking animation over virtual rows, click events fired
//! once per row crossing, and a percussive click waveform.
//!
//! All distances are held in milli-units (one thousandth of a distance
//! unit) and all times in milliseconds, so that the animation arithmetic
//! is exact integer arithmetic.

use vstd::prelude::*;

pub mod easing;
pub mod click;
pub mod engine;
pub mod fetch;
pub mod present;
pub mod records;
pub(crate) mod random_source;

verus! {

/// Height of one listing row, in milli-units (80 distance units).
pub const ROW_HEIGHT_MILLI: i64 = 80_000;

/// A scroll is considered converged when it is closer to the target
/// than this distance (0.5 distance units), in milli-units.
pub const SNAP_EPSILON_MILLI: i64 = 500;

} // verus!
