//! Cubic ease-in-out: slow departure, fast middle, slow arrival.

use vstd::prelude::*;
use crate::units::{FULL_PROGRESS, FULL_PROGRESS_SQUARED};

verus! {

/// `x` to the third power.
pub open spec fn cube(x: int) -> int {
    x * x * x
}

/// Eased progress for linear progress `t`, both in millionths.
///
/// Below the midpoint this is `4 t^3`, from the midpoint on it is
/// `1 - (2 - 2 t)^3 / 2 = 1 - 4 (1 - t)^3`, each cubic term rounded down to a
/// whole millionth.
pub open spec fn ease_spec(t: int) -> int {
    let one = FULL_PROGRESS as int;
    if 2 * t < one {
        4 * cube(t) / (FULL_PROGRESS_SQUARED as int)
    } else {
        one - 4 * cube(one - t) / (FULL_PROGRESS_SQUARED as int)
    }
}

/// Cubes keep the order of non-negative numbers.
pub proof fn lemma_cube_monotone(a: int, b: int)
    requires
        0 <= a <= b,
    ensures
        0 <= cube(a) <= cube(b),
{
    assert(0 <= a * a <= b * b) by (nonlinear_arith)
        requires
            0 <= a <= b,
    ;
    assert(0 <= a * a * a <= b * b * b) by (nonlinear_arith)
        requires
            0 <= a <= b,
            0 <= a * a <= b * b,
    ;
}

/// Up to the midpoint, four times the cube stays under half of the cubed scale.
proof fn lemma_half_cube(t: int)
    requires
        0 <= t,
        2 * t <= FULL_PROGRESS,
    ensures
        0 <= 4 * cube(t) <= 500_000_000_000_000_000,
        2 * t < FULL_PROGRESS ==> 4 * cube(t) < 500_000_000_000_000_000,
{
    lemma_cube_monotone(t, 500_000);
    assert(cube(500_000) == 125_000_000_000_000_000) by (nonlinear_arith);
    if 2 * t < FULL_PROGRESS {
        lemma_cube_monotone(t, 499_999);
        assert(cube(499_999) < 125_000_000_000_000_000) by (nonlinear_arith);
    }
}

/// Eased progress never leaves the unit interval.
pub proof fn lemma_ease_bounded(t: int)
    requires
        0 <= t <= FULL_PROGRESS,
    ensures
        0 <= ease_spec(t) <= FULL_PROGRESS,
        2 * t < FULL_PROGRESS ==> 2 * ease_spec(t) <= FULL_PROGRESS,
        2 * t >= FULL_PROGRESS ==> 2 * ease_spec(t) >= FULL_PROGRESS,
{
    if 2 * t < FULL_PROGRESS {
        lemma_half_cube(t);
    } else {
        lemma_half_cube(FULL_PROGRESS - t);
    }
}

/// The curve starts at zero, ends at one, and passes through the midpoint.
pub proof fn lemma_ease_fixed_points()
    ensures
        ease_spec(0) == 0,
        ease_spec(FULL_PROGRESS as int / 2) == FULL_PROGRESS / 2,
        ease_spec(FULL_PROGRESS as int) == FULL_PROGRESS,
{
    assert(cube(0) == 0) by (nonlinear_arith);
    assert(cube(500_000) == 125_000_000_000_000_000) by (nonlinear_arith);
}

/// More linear progress never gives less eased progress.
pub proof fn lemma_ease_monotone(a: int, b: int)
    requires
        0 <= a <= b <= FULL_PROGRESS,
    ensures
        ease_spec(a) <= ease_spec(b),
{
    let one = FULL_PROGRESS as int;
    if 2 * b < one {
        lemma_cube_monotone(a, b);
    } else if 2 * a < one {
        lemma_ease_bounded(a);
        lemma_ease_bounded(b);
    } else {
        lemma_cube_monotone(one - b, one - a);
    }
}

/// The second half of the curve mirrors the first.
pub proof fn lemma_ease_symmetric(t: int)
    requires
        0 <= t <= FULL_PROGRESS,
    ensures
        ease_spec(FULL_PROGRESS - t) == FULL_PROGRESS - ease_spec(t),
{
    if 2 * t == FULL_PROGRESS {
        lemma_ease_fixed_points();
    }
}

/// Motion is held back near the start and runs ahead near the end: the curve
/// lies under the diagonal before the midpoint and over it afterwards.
pub proof fn lemma_ease_slow_ends(t: int)
    requires
        0 <= t <= FULL_PROGRESS,
    ensures
        2 * t <= FULL_PROGRESS ==> ease_spec(t) <= t,
        2 * t >= FULL_PROGRESS ==> ease_spec(t) >= t,
{
    let one = FULL_PROGRESS as int;
    if 2 * t < one {
        assert(4 * cube(t) <= t * 1_000_000_000_000) by (nonlinear_arith)
            requires
                0 <= t,
                2 * t <= 1_000_000,
        ;
    } else {
        if 2 * t == one {
            lemma_ease_fixed_points();
        }
        let u = one - t;
        assert(4 * cube(u) <= u * 1_000_000_000_000) by (nonlinear_arith)
            requires
                0 <= u,
                2 * u <= 1_000_000,
        ;
    }
}

/// Squares and cubes of progress values up to the midpoint fit in 64 bits
/// with room for the factor four.
proof fn lemma_half_cube_fits(t: int)
    requires
        0 <= t,
        2 * t <= FULL_PROGRESS,
    ensures
        0 <= t * t <= 250_000_000_000,
        t * t * t == cube(t),
        0 <= 4 * cube(t) <= 500_000_000_000_000_000,
{
    lemma_half_cube(t);
    assert(0 <= t * t <= 250_000_000_000) by (nonlinear_arith)
        requires
            0 <= t <= 500_000,
    ;
}

/// Cubic ease-in-out of the linear progress `t`, in millionths.
pub fn ease_in_out_cubic(t: u64) -> (eased: u64)
    requires
        t <= FULL_PROGRESS,
    ensures
        eased == ease_spec(t as int),
        eased <= FULL_PROGRESS,
{
    proof {
        lemma_ease_bounded(t as int);
    }
    if 2 * t < FULL_PROGRESS {
        proof {
            lemma_half_cube_fits(t as int);
        }
        let c: u64 = t * t * t;
        4 * c / FULL_PROGRESS_SQUARED
    } else {
        let u: u64 = FULL_PROGRESS - t;
        proof {
            lemma_half_cube_fits(u as int);
        }
        let c: u64 = u * u * u;
        FULL_PROGRESS - 4 * c / FULL_PROGRESS_SQUARED
    }
}

} // verus!
