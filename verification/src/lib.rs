//! Core logic of a pouring-and-weighing arcade round: a per-category ledger
//! of balls resting on a balance sensor, a weight/ratio evaluator with a
//! piecewise-linear closeness score, per-round goal criteria, a pausable
//! round stopwatch, and the countdown state machine that freezes the result.
//!
//! All quantities that the surrounding game treats as fractional are carried
//! here as fixed-point integers: weights and percentages in hundredths
//! (centi-units), times in milliseconds.
use vstd::prelude::*;

pub mod ball;
pub mod balance;
pub mod goals;
pub mod score;
pub mod ui;
pub mod text;

verus! {

/// Weight of a single ball, in centi-units (0.80 units per ball).
pub const UNIT_WEIGHT_CENTI: u64 = 80;

} // verus!
