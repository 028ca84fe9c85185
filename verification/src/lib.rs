//! Human-like pointer trajectories and keystroke cadences, computed in
//! integer fixed-point arithmetic and handed out as plans that a device
//! layer can replay in real time.
//!
//! Positions are kept in thousandths of a pixel, progress along a move in
//! millionths, durations in microseconds.

pub mod units;
pub mod easing;
pub mod arith;
pub mod bezier;
pub mod random;
pub mod trajectory;
pub mod schedule;
pub mod cadence;
pub mod human;
