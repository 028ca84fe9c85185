//! Fixed-point scales shared by the whole crate.

use vstd::prelude::*;

verus! {

/// Progress along a move is a fraction written in millionths: `0` is the
/// start, `FULL_PROGRESS` the end.
pub const FULL_PROGRESS: u64 = 1_000_000;

/// `FULL_PROGRESS` squared.
pub const FULL_PROGRESS_SQUARED: u64 = 1_000_000_000_000;

/// `FULL_PROGRESS` cubed.
pub const FULL_PROGRESS_CUBED: u64 = 1_000_000_000_000_000_000;

/// Positions are written in thousandths of a pixel.
pub const MILLIS_PER_PIXEL: i64 = 1_000;

/// Largest coordinate the device accepts, in whole pixels.
pub const MAX_PIXEL: u16 = 65_535;

} // verus!
