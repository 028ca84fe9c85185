//! Trajectory generation: a jittered landing point and two randomized control
//! points around the straight line from start to target.

use vstd::prelude::*;
use rand::rngs::StdRng;
use crate::arith::floor_div;
use crate::bezier::Point;
use crate::random::uniform;
use crate::units::{MAX_PIXEL, MILLIS_PER_PIXEL};

verus! {

/// The landing point misses the target by less than this on each axis
/// (two pixels).
pub const LANDING_JITTER: i64 = 2_000;

/// The first control point strays from the line by less than this on each
/// axis (forty pixels).
pub const DEPARTURE_SPREAD: i64 = 40_000;

/// The second control point falls short of the line by at most this
/// (twenty pixels) ...
pub const ARRIVAL_SHORTFALL: i64 = 20_000;

/// ... and shoots past it by less than this (sixty pixels): the range leans
/// forward, as a moving hand carries its momentum towards the destination.
pub const ARRIVAL_OVERSHOOT: i64 = 60_000;

impl Point {
    /// The sub-pixel position of the corner of pixel `(x, y)`.
    pub open spec fn of_pixel(x: u16, y: u16) -> Point {
        Point { x: (x * MILLIS_PER_PIXEL) as i64, y: (y * MILLIS_PER_PIXEL) as i64 }
    }

    /// One coordinate lies within landing distance of the screen.
    pub open spec fn axis_in_reach(v: int) -> bool {
        -LANDING_JITTER <= v < MAX_PIXEL * MILLIS_PER_PIXEL + LANDING_JITTER
    }

    /// The point is one a move can land on: within jitter of some pixel.
    pub open spec fn in_reach(self) -> bool {
        Point::axis_in_reach(self.x as int) && Point::axis_in_reach(self.y as int)
    }

    /// The point lies within landing jitter of pixel `(x, y)` on both axes.
    pub open spec fn lands_near(self, x: u16, y: u16) -> bool {
        &&& -LANDING_JITTER <= self.x - x * MILLIS_PER_PIXEL < LANDING_JITTER
        &&& -LANDING_JITTER <= self.y - y * MILLIS_PER_PIXEL < LANDING_JITTER
    }

    /// The sub-pixel position of the corner of pixel `(x, y)`.
    pub fn at_pixel(x: u16, y: u16) -> (p: Point)
        ensures
            p == Point::of_pixel(x, y),
            p.in_reach(),
            p.lands_near(x, y),
    {
        Point { x: (x as i64) * MILLIS_PER_PIXEL, y: (y as i64) * MILLIS_PER_PIXEL }
    }
}

/// A point within landing jitter of a pixel is shown at most two pixels
/// below it and at most one above, on each axis.
pub proof fn lemma_landing_pixel(p: Point, x: u16, y: u16)
    requires
        p.lands_near(x, y),
    ensures
        -2 <= p.pixel_spec().0 - x <= 1,
        -2 <= p.pixel_spec().1 - y <= 1,
        p.in_reach(),
{
}

/// The point `fifths / 5` of the way from `a` to `b`, rounded down.
pub open spec fn lerp_spec(a: int, b: int, fifths: int) -> int {
    a + (b - a) * fifths / 5
}

/// The point `fifths / 5` of the way from `a` to `b`, rounded down.
pub fn lerp_fifths(a: i64, b: i64, fifths: u8) -> (r: i64)
    requires
        fifths <= 5,
    ensures
        r == lerp_spec(a as int, b as int, fifths as int),
        a <= b ==> a <= r <= b,
        b <= a ==> b <= r <= a,
{
    let span: i128 = (b as i128) - (a as i128);
    let k: i128 = fifths as i128;
    assert(span >= 0 ==> 0 <= span * k <= span * 5) by (nonlinear_arith)
        requires
            0 <= k <= 5,
    ;
    assert(span <= 0 ==> span * 5 <= span * k <= 0) by (nonlinear_arith)
        requires
            0 <= k <= 5,
    ;
    let part: i128 = floor_div(span * k, 5);
    ((a as i128) + part) as i64
}

/// The random offsets that shape one trajectory, in sub-pixel units.
#[derive(Clone, Copy, Debug, PartialEq, Eq, Structural)]
pub struct Scatter {
    /// How far the landing point misses the target.
    pub landing: Point,
    /// How far the first control point leaves the line near the start.
    pub departure: Point,
    /// How far the second control point leaves the line near the end.
    pub arrival: Point,
}

impl Scatter {
    /// Each offset lies in the range it is drawn from.
    pub open spec fn in_range(self) -> bool {
        &&& -LANDING_JITTER <= self.landing.x < LANDING_JITTER
        &&& -LANDING_JITTER <= self.landing.y < LANDING_JITTER
        &&& -DEPARTURE_SPREAD <= self.departure.x < DEPARTURE_SPREAD
        &&& -DEPARTURE_SPREAD <= self.departure.y < DEPARTURE_SPREAD
        &&& -ARRIVAL_SHORTFALL <= self.arrival.x < ARRIVAL_OVERSHOOT
        &&& -ARRIVAL_SHORTFALL <= self.arrival.y < ARRIVAL_OVERSHOOT
    }

    /// Draws the six offsets of one trajectory, in the order landing,
    /// departure, arrival, each x before y.
    pub fn draw(rng: &mut StdRng) -> (s: Scatter)
        ensures
            s.in_range(),
    {
        let landing_x: i64 = uniform(rng, -LANDING_JITTER, LANDING_JITTER);
        let landing_y: i64 = uniform(rng, -LANDING_JITTER, LANDING_JITTER);
        let departure_x: i64 = uniform(rng, -DEPARTURE_SPREAD, DEPARTURE_SPREAD);
        let departure_y: i64 = uniform(rng, -DEPARTURE_SPREAD, DEPARTURE_SPREAD);
        let arrival_x: i64 = uniform(rng, -ARRIVAL_SHORTFALL, ARRIVAL_OVERSHOOT);
        let arrival_y: i64 = uniform(rng, -ARRIVAL_SHORTFALL, ARRIVAL_OVERSHOOT);
        Scatter {
            landing: Point { x: landing_x, y: landing_y },
            departure: Point { x: departure_x, y: departure_y },
            arrival: Point { x: arrival_x, y: arrival_y },
        }
    }
}

/// One cubic Bezier segment: where a move starts, the two control points
/// that bend it, and where it lands.
#[derive(Clone, Copy, Debug, PartialEq, Eq, Structural)]
pub struct TrajectorySpec {
    pub start: Point,
    pub ctrl1: Point,
    pub ctrl2: Point,
    pub end: Point,
}

impl TrajectorySpec {
    /// The trajectory from `start` towards pixel `(target_x, target_y)` that
    /// the offsets `scatter` give: the landing point is the target plus the
    /// landing offset, the control points sit one fifth and four fifths of
    /// the way from start to landing point, each moved by its own offset.
    pub open spec fn plan_spec(
        start: Point,
        target_x: u16,
        target_y: u16,
        scatter: Scatter,
    ) -> TrajectorySpec {
        let end_x = target_x * MILLIS_PER_PIXEL + scatter.landing.x;
        let end_y = target_y * MILLIS_PER_PIXEL + scatter.landing.y;
        TrajectorySpec {
            start,
            ctrl1: Point {
                x: (lerp_spec(start.x as int, end_x, 1) + scatter.departure.x) as i64,
                y: (lerp_spec(start.y as int, end_y, 1) + scatter.departure.y) as i64,
            },
            ctrl2: Point {
                x: (lerp_spec(start.x as int, end_x, 4) + scatter.arrival.x) as i64,
                y: (lerp_spec(start.y as int, end_y, 4) + scatter.arrival.y) as i64,
            },
            end: Point { x: end_x as i64, y: end_y as i64 },
        }
    }

    /// The trajectory is one that generation can produce for a move from
    /// `start` to pixel `(target_x, target_y)`: it departs from `start`, lands
    /// within jitter of the target, and each control point lies within its
    /// spread of the line from start to landing point.
    pub open spec fn shaped_for(self, start: Point, target_x: u16, target_y: u16) -> bool {
        &&& self.start == start
        &&& self.end.lands_near(target_x, target_y)
        &&& -DEPARTURE_SPREAD <= self.ctrl1.x - lerp_spec(start.x as int, self.end.x as int, 1)
            < DEPARTURE_SPREAD
        &&& -DEPARTURE_SPREAD <= self.ctrl1.y - lerp_spec(start.y as int, self.end.y as int, 1)
            < DEPARTURE_SPREAD
        &&& -ARRIVAL_SHORTFALL <= self.ctrl2.x - lerp_spec(start.x as int, self.end.x as int, 4)
            < ARRIVAL_OVERSHOOT
        &&& -ARRIVAL_SHORTFALL <= self.ctrl2.y - lerp_spec(start.y as int, self.end.y as int, 4)
            < ARRIVAL_OVERSHOOT
    }

    /// Builds the trajectory from `start` towards pixel
    /// `(target_x, target_y)` out of already drawn offsets.
    pub fn plan(start: Point, target_x: u16, target_y: u16, scatter: Scatter) -> (t: TrajectorySpec)
        requires
            start.in_reach(),
            scatter.in_range(),
        ensures
            t == TrajectorySpec::plan_spec(start, target_x, target_y, scatter),
            t.shaped_for(start, target_x, target_y),
            t.end.in_reach(),
    {
        let end = Point {
            x: (target_x as i64) * MILLIS_PER_PIXEL + scatter.landing.x,
            y: (target_y as i64) * MILLIS_PER_PIXEL + scatter.landing.y,
        };
        let ctrl1 = Point {
            x: lerp_fifths(start.x, end.x, 1) + scatter.departure.x,
            y: lerp_fifths(start.y, end.y, 1) + scatter.departure.y,
        };
        let ctrl2 = Point {
            x: lerp_fifths(start.x, end.x, 4) + scatter.arrival.x,
            y: lerp_fifths(start.y, end.y, 4) + scatter.arrival.y,
        };
        TrajectorySpec { start, ctrl1, ctrl2, end }
    }

    /// Draws fresh offsets from `rng` and builds the trajectory from `start`
    /// towards pixel `(target_x, target_y)`.
    pub fn generate(rng: &mut StdRng, start: Point, target_x: u16, target_y: u16) -> (t:
        TrajectorySpec)
        requires
            start.in_reach(),
        ensures
            t.shaped_for(start, target_x, target_y),
            t.end.in_reach(),
    {
        let scatter = Scatter::draw(rng);
        TrajectorySpec::plan(start, target_x, target_y, scatter)
    }
}

} // verus!
