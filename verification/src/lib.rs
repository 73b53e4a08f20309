//! Daily calorie planning: basal metabolic rate, activity-scaled energy
//! expenditure, goal-based intake ranges, and diet-style macro splits.
//!
//! Every calorie quantity is held in exact decimal fixed point, so the whole
//! pipeline is proved to compute the documented formulas without rounding.

pub mod calc;
pub mod laws;
pub mod text;
pub mod types;
