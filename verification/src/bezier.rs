//! Points in sub-pixel units and cubic Bezier evaluation.

use vstd::prelude::*;
use crate::arith::floor_div;
use crate::easing::cube;
use crate::units::{FULL_PROGRESS, FULL_PROGRESS_CUBED, MAX_PIXEL, MILLIS_PER_PIXEL};

verus! {

/// A position in thousandths of a pixel.
#[derive(Clone, Copy, Debug, PartialEq, Eq, Structural)]
pub struct Point {
    pub x: i64,
    pub y: i64,
}

/// The whole pixel that holds sub-pixel coordinate `v`: the coordinate
/// rounded down, kept within what the device can address.
pub open spec fn pixel_of_spec(v: int) -> int {
    let whole = v / (MILLIS_PER_PIXEL as int);
    if whole < 0 {
        0
    } else if whole > MAX_PIXEL {
        MAX_PIXEL as int
    } else {
        whole
    }
}

/// The whole pixel that holds sub-pixel coordinate `v`.
pub fn pixel_of(v: i64) -> (px: u16)
    ensures
        px == pixel_of_spec(v as int),
{
    if v < 0 {
        0
    } else {
        let whole: i64 = v / MILLIS_PER_PIXEL;
        if whole > MAX_PIXEL as i64 {
            MAX_PIXEL
        } else {
            whole as u16
        }
    }
}

impl Point {
    /// The device pixel under this position.
    pub open spec fn pixel_spec(self) -> (u16, u16) {
        (pixel_of_spec(self.x as int) as u16, pixel_of_spec(self.y as int) as u16)
    }

    /// The device pixel under this position.
    pub fn pixel(&self) -> (px: (u16, u16))
        ensures
            px == self.pixel_spec(),
    {
        (pixel_of(self.x), pixel_of(self.y))
    }
}

/// Bernstein weight of the start point at progress `t`, scaled by the cubed
/// progress scale: `(1 - t)^3`.
pub open spec fn weight_start(t: int) -> int {
    cube(FULL_PROGRESS - t)
}

/// Weight of the first control point: `3 t (1 - t)^2`.
pub open spec fn weight_ctrl1(t: int) -> int {
    3 * ((FULL_PROGRESS - t) * (FULL_PROGRESS - t) * t)
}

/// Weight of the second control point: `3 t^2 (1 - t)`.
pub open spec fn weight_ctrl2(t: int) -> int {
    3 * ((FULL_PROGRESS - t) * t * t)
}

/// Weight of the end point: `t^3`.
pub open spec fn weight_end(t: int) -> int {
    cube(t)
}

/// One coordinate of the cubic Bezier curve from `start` to `end`, bent by
/// `ctrl1` and `ctrl2`, at progress `t` (in millionths), rounded down to a
/// whole sub-pixel unit.
pub open spec fn bezier_axis_spec(t: int, start: int, ctrl1: int, ctrl2: int, end: int) -> int {
    let weighted = weight_start(t) * start + weight_ctrl1(t) * ctrl1 + weight_ctrl2(t) * ctrl2
        + weight_end(t) * end;
    weighted / (FULL_PROGRESS_CUBED as int)
}

/// The point of the cubic Bezier curve at progress `t`, axis by axis.
pub open spec fn bezier_spec(t: int, start: Point, ctrl1: Point, ctrl2: Point, end: Point) -> Point {
    Point {
        x: bezier_axis_spec(t, start.x as int, ctrl1.x as int, ctrl2.x as int, end.x as int) as i64,
        y: bezier_axis_spec(t, start.y as int, ctrl1.y as int, ctrl2.y as int, end.y as int) as i64,
    }
}

/// Smallest of four numbers.
pub open spec fn min4(a: int, b: int, c: int, d: int) -> int {
    let ab = if a <= b { a } else { b };
    let cd = if c <= d { c } else { d };
    if ab <= cd { ab } else { cd }
}

/// Largest of four numbers.
pub open spec fn max4(a: int, b: int, c: int, d: int) -> int {
    let ab = if a >= b { a } else { b };
    let cd = if c >= d { c } else { d };
    if ab >= cd { ab } else { cd }
}

/// The four weights are non-negative and add up to the cubed progress scale.
pub proof fn lemma_weights(t: int)
    requires
        0 <= t <= FULL_PROGRESS,
    ensures
        0 <= weight_start(t) <= FULL_PROGRESS_CUBED,
        0 <= weight_ctrl1(t) <= FULL_PROGRESS_CUBED,
        0 <= weight_ctrl2(t) <= FULL_PROGRESS_CUBED,
        0 <= weight_end(t) <= FULL_PROGRESS_CUBED,
        weight_start(t) + weight_ctrl1(t) + weight_ctrl2(t) + weight_end(t) == FULL_PROGRESS_CUBED,
{
    let u = FULL_PROGRESS - t;
    assert(0 <= u * u * u && 0 <= u * u * t && 0 <= u * t * t && 0 <= t * t * t)
        by (nonlinear_arith)
        requires
            0 <= u,
            0 <= t,
    ;
    assert(u * u * u + 3 * (u * u * t) + 3 * (u * t * t) + t * t * t == 1_000_000_000_000_000_000)
        by (nonlinear_arith)
        requires
            u + t == 1_000_000,
    ;
}

/// A weighted sum of values between `lo` and `hi`, with non-negative weights,
/// lies between `lo` and `hi` times the sum of the weights.
proof fn lemma_weighted_sum_bounds(
    w0: int,
    w1: int,
    w2: int,
    w3: int,
    v0: int,
    v1: int,
    v2: int,
    v3: int,
    lo: int,
    hi: int,
)
    requires
        0 <= w0,
        0 <= w1,
        0 <= w2,
        0 <= w3,
        lo <= v0 <= hi,
        lo <= v1 <= hi,
        lo <= v2 <= hi,
        lo <= v3 <= hi,
    ensures
        (w0 + w1 + w2 + w3) * lo <= w0 * v0 + w1 * v1 + w2 * v2 + w3 * v3 <= (w0 + w1 + w2 + w3)
            * hi,
        w0 * lo <= w0 * v0 <= w0 * hi,
        w1 * lo <= w1 * v1 <= w1 * hi,
        w2 * lo <= w2 * v2 <= w2 * hi,
        w3 * lo <= w3 * v3 <= w3 * hi,
{
    lemma_scaled_between(w0, v0, lo, hi);
    lemma_scaled_between(w1, v1, lo, hi);
    lemma_scaled_between(w2, v2, lo, hi);
    lemma_scaled_between(w3, v3, lo, hi);
    assert((w0 + w1 + w2 + w3) * lo == w0 * lo + w1 * lo + w2 * lo + w3 * lo)
        by (nonlinear_arith);
    assert((w0 + w1 + w2 + w3) * hi == w0 * hi + w1 * hi + w2 * hi + w3 * hi)
        by (nonlinear_arith);
}

/// Scaling by a non-negative weight keeps a value between its scaled bounds.
proof fn lemma_scaled_between(w: int, p: int, lo: int, hi: int)
    requires
        0 <= w,
        lo <= p <= hi,
    ensures
        w * lo <= w * p <= w * hi,
{
    assert(w * lo <= w * p <= w * hi) by (nonlinear_arith)
        requires
            0 <= w,
            lo <= p <= hi,
    ;
}

/// At progress zero the curve is at its first point, at full progress at its
/// last.
pub proof fn lemma_bezier_endpoints(start: int, ctrl1: int, ctrl2: int, end: int)
    ensures
        bezier_axis_spec(0, start, ctrl1, ctrl2, end) == start,
        bezier_axis_spec(FULL_PROGRESS as int, start, ctrl1, ctrl2, end) == end,
{
    lemma_weights(0);
    lemma_weights(FULL_PROGRESS as int);
    assert(weight_ctrl1(0) == 0 && weight_ctrl2(0) == 0 && weight_end(0) == 0)
        by (nonlinear_arith);
    assert(weight_start(1_000_000) == 0 && weight_ctrl1(1_000_000) == 0 && weight_ctrl2(
        1_000_000,
    ) == 0) by (nonlinear_arith);
    assert(weight_start(0) == 1_000_000_000_000_000_000);
    assert(weight_end(1_000_000) == 1_000_000_000_000_000_000);
}

/// A curve starts at its first point and ends at its last, whatever the
/// control points are.
pub proof fn lemma_bezier_starts_and_ends(start: Point, ctrl1: Point, ctrl2: Point, end: Point)
    ensures
        bezier_spec(0, start, ctrl1, ctrl2, end) == start,
        bezier_spec(FULL_PROGRESS as int, start, ctrl1, ctrl2, end) == end,
{
    lemma_bezier_endpoints(start.x as int, ctrl1.x as int, ctrl2.x as int, end.x as int);
    lemma_bezier_endpoints(start.y as int, ctrl1.y as int, ctrl2.y as int, end.y as int);
}

/// The curve never leaves the bounding interval of its four defining values.
pub proof fn lemma_bezier_in_hull(t: int, start: int, ctrl1: int, ctrl2: int, end: int)
    requires
        0 <= t <= FULL_PROGRESS,
    ensures
        min4(start, ctrl1, ctrl2, end) <= bezier_axis_spec(t, start, ctrl1, ctrl2, end) <= max4(start, ctrl1, ctrl2, end),
{
    lemma_weights(t);
    lemma_weighted_sum_bounds(
        weight_start(t),
        weight_ctrl1(t),
        weight_ctrl2(t),
        weight_end(t),
        start,
        ctrl1,
        ctrl2,
        end,
        min4(start, ctrl1, ctrl2, end),
        max4(start, ctrl1, ctrl2, end),
    );
}

/// One coordinate of the cubic Bezier curve at progress `t`.
pub fn bezier_axis(t: u64, start: i64, ctrl1: i64, ctrl2: i64, end: i64) -> (r: i64)
    requires
        t <= FULL_PROGRESS,
    ensures
        r == bezier_axis_spec(t as int, start as int, ctrl1 as int, ctrl2 as int, end as int),
        min4(start as int, ctrl1 as int, ctrl2 as int, end as int) <= r <= max4(
            start as int,
            ctrl1 as int,
            ctrl2 as int,
            end as int,
        ),
        t == 0 ==> r == start,
        t == FULL_PROGRESS ==> r == end,
{
    let ti: i128 = t as i128;
    let u: i128 = (FULL_PROGRESS - t) as i128;
    proof {
        lemma_weights(t as int);
        lemma_bezier_in_hull(t as int, start as int, ctrl1 as int, ctrl2 as int, end as int);
        lemma_bezier_endpoints(start as int, ctrl1 as int, ctrl2 as int, end as int);
        assert(0 <= u * u <= 1_000_000_000_000 && 0 <= u * ti <= 1_000_000_000_000 && 0 <= ti * ti
            <= 1_000_000_000_000) by (nonlinear_arith)
            requires
                0 <= u <= 1_000_000,
                0 <= ti <= 1_000_000,
        ;
        lemma_weighted_sum_bounds(
            weight_start(t as int),
            weight_ctrl1(t as int),
            weight_ctrl2(t as int),
            weight_end(t as int),
            start as int,
            ctrl1 as int,
            ctrl2 as int,
            end as int,
            i64::MIN as int,
            i64::MAX as int,
        );
    }
    let w0: i128 = u * u * u;
    let w1: i128 = 3 * (u * u * ti);
    let w2: i128 = 3 * (u * ti * ti);
    let w3: i128 = ti * ti * ti;
    let weighted: i128 = w0 * (start as i128) + w1 * (ctrl1 as i128) + w2 * (ctrl2 as i128)
        + w3 * (end as i128);
    let r: i128 = floor_div(weighted, FULL_PROGRESS_CUBED as i128);
    r as i64
}

/// The point of the cubic Bezier curve from `start` to `end`, bent by the
/// control points `ctrl1` and `ctrl2`, at progress `t` in millionths.
pub fn bezier_cubic(t: u64, start: Point, ctrl1: Point, ctrl2: Point, end: Point) -> (r: Point)
    requires
        t <= FULL_PROGRESS,
    ensures
        r == bezier_spec(t as int, start, ctrl1, ctrl2, end),
        t == 0 ==> r == start,
        t == FULL_PROGRESS ==> r == end,
        min4(start.x as int, ctrl1.x as int, ctrl2.x as int, end.x as int) <= r.x <= max4(
            start.x as int,
            ctrl1.x as int,
            ctrl2.x as int,
            end.x as int,
        ),
        min4(start.y as int, ctrl1.y as int, ctrl2.y as int, end.y as int) <= r.y <= max4(
            start.y as int,
            ctrl1.y as int,
            ctrl2.y as int,
            end.y as int,
        ),
{
    Point { x: bezier_axis(t, start.x, ctrl1.x, ctrl2.x, end.x), y: bezier_axis(t, start.y, ctrl1.y, ctrl2.y, end.y) }
}

} // verus!
