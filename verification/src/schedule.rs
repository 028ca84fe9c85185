//! The motion scheduler: how many samples a move takes, how far apart they
//! lie in time, and where each of them falls on the trajectory.

use vstd::prelude::*;
use crate::bezier::{bezier_cubic, bezier_spec, lemma_bezier_starts_and_ends, Point};
use crate::easing::{ease_in_out_cubic, ease_spec, lemma_ease_fixed_points, lemma_ease_monotone};
use crate::trajectory::TrajectorySpec;
use crate::units::FULL_PROGRESS;

verus! {

/// Positions are sampled at this rate.
pub const SAMPLES_PER_SECOND: u64 = 80;

/// Why a move was refused.
#[derive(Clone, Copy, Debug, PartialEq, Eq, Structural)]
pub enum MotionError {
    /// The requested duration was not positive, so no step count exists.
    InvalidDuration,
}

/// Number of steps of a move that lasts `duration_us` microseconds: the
/// duration in seconds times the sample rate, rounded to the nearest whole
/// number, and at least one.
pub open spec fn step_count_spec(duration_us: int) -> int {
    let rounded = (duration_us * SAMPLES_PER_SECOND + 500_000) / 1_000_000;
    if rounded < 1 {
        1
    } else {
        rounded
    }
}

/// Pause between two samples in nanoseconds: the duration divided by the
/// step count, rounded down.
pub open spec fn interval_ns_spec(duration_us: int) -> int {
    duration_us * 1_000 / step_count_spec(duration_us)
}

/// The step count is the nearest whole number of sample periods in the
/// duration (halves go up), unless that would be zero.
pub proof fn lemma_step_count_rounds(duration_us: int)
    requires
        0 < duration_us,
    ensures
        step_count_spec(duration_us) >= 1,
        duration_us * SAMPLES_PER_SECOND < 500_000 ==> step_count_spec(duration_us) == 1,
        duration_us * SAMPLES_PER_SECOND >= 500_000 ==> {
            &&& step_count_spec(duration_us) == (duration_us * SAMPLES_PER_SECOND + 500_000)
                / 1_000_000
            &&& -500_000 <= duration_us * SAMPLES_PER_SECOND - step_count_spec(duration_us)
                * 1_000_000 < 500_000
        },
{
}

/// The pauses of a move fill its duration: together they fall short of it by
/// less than one nanosecond per step. No pause is longer than 18.75 ms.
pub proof fn lemma_interval_fills_duration(duration_us: int)
    requires
        0 < duration_us,
    ensures
        0 <= interval_ns_spec(duration_us) < 18_750_000,
        step_count_spec(duration_us) * interval_ns_spec(duration_us) <= duration_us * 1_000
            < step_count_spec(duration_us) * (interval_ns_spec(duration_us) + 1),
{
    let steps = step_count_spec(duration_us);
    let total = duration_us * 1_000;
    lemma_step_count_rounds(duration_us);
    assert(total < 18_750_000 * steps);
    let pause = total / steps;
    assert(0 <= pause < 18_750_000 && steps * pause <= total < steps * (pause + 1))
        by (nonlinear_arith)
        requires
            0 <= total < 18_750_000 * steps,
            steps >= 1,
            pause == total / steps,
    ;
}

/// Number of steps of a move that lasts `duration_us` microseconds.
pub fn step_count(duration_us: u64) -> (r: Result<u64, MotionError>)
    ensures
        duration_us == 0 ==> r == Err::<u64, MotionError>(MotionError::InvalidDuration),
        duration_us > 0 ==> r == Ok::<u64, MotionError>(step_count_spec(duration_us as int) as u64),
        r matches Ok(steps) ==> steps >= 1,
{
    if duration_us == 0 {
        return Err(MotionError::InvalidDuration);
    }
    let rate: u128 = SAMPLES_PER_SECOND as u128;
    let scaled: u128 = (duration_us as u128) * rate;
    let rounded: u128 = (scaled + 500_000) / 1_000_000;
    if rounded < 1 {
        Ok(1)
    } else {
        Ok(rounded as u64)
    }
}

/// A scheduled move: the trajectory, the number of steps it is cut into, and
/// the pause between two samples.
#[derive(Clone, Copy, Debug, PartialEq, Eq, Structural)]
pub struct Motion {
    pub path: TrajectorySpec,
    pub steps: u64,
    pub interval_ns: u64,
}

impl Motion {
    /// A move has at least one step.
    pub open spec fn wf(self) -> bool {
        self.steps >= 1
    }

    /// The schedule of `path` over `duration_us` microseconds.
    pub open spec fn schedule_spec(path: TrajectorySpec, duration_us: int) -> Motion {
        Motion {
            path,
            steps: step_count_spec(duration_us) as u64,
            interval_ns: interval_ns_spec(duration_us) as u64,
        }
    }

    /// Linear progress at sample `i`, in millionths: `i / steps`, rounded down.
    pub open spec fn progress_spec(self, i: int) -> int {
        i * FULL_PROGRESS / (self.steps as int)
    }

    /// Sub-pixel position at sample `i`: the trajectory evaluated at the eased
    /// progress.
    pub open spec fn position_spec(self, i: int) -> Point {
        bezier_spec(
            ease_spec(self.progress_spec(i)),
            self.path.start,
            self.path.ctrl1,
            self.path.ctrl2,
            self.path.end,
        )
    }

    /// Device pixel emitted at sample `i`.
    pub open spec fn sample_spec(self, i: int) -> (u16, u16) {
        self.position_spec(i).pixel_spec()
    }

    /// Linear progress runs from zero to full and never leaves that range.
    pub proof fn lemma_progress_bounded(self, i: int)
        requires
            self.wf(),
            0 <= i <= self.steps,
        ensures
            0 <= self.progress_spec(i) <= FULL_PROGRESS,
            i == 0 ==> self.progress_spec(i) == 0,
            i == self.steps ==> self.progress_spec(i) == FULL_PROGRESS,
    {
        let n = self.steps as int;
        let scaled = i * 1_000_000;
        assert(0 <= scaled / n <= 1_000_000) by (nonlinear_arith)
            requires
                0 <= scaled <= n * 1_000_000,
                n >= 1,
        ;
        assert(n * 1_000_000 / n == 1_000_000) by (nonlinear_arith)
            requires
                n >= 1,
        ;
        assert(0int / n == 0) by (nonlinear_arith)
            requires
                n >= 1,
        ;
    }

    /// The first sample is the pixel under the start of the trajectory, the
    /// last the pixel under its end.
    pub proof fn lemma_first_and_last_sample(self)
        requires
            self.wf(),
        ensures
            self.position_spec(0) == self.path.start,
            self.position_spec(self.steps as int) == self.path.end,
            self.sample_spec(0) == self.path.start.pixel_spec(),
            self.sample_spec(self.steps as int) == self.path.end.pixel_spec(),
    {
        self.lemma_progress_bounded(0);
        self.lemma_progress_bounded(self.steps as int);
        lemma_ease_fixed_points();
        lemma_bezier_starts_and_ends(
            self.path.start,
            self.path.ctrl1,
            self.path.ctrl2,
            self.path.end,
        );
    }

    /// Later samples are never taken at an earlier point of the curve: both
    /// linear and eased progress grow with the sample index.
    pub proof fn lemma_progress_monotone(self, i: int, j: int)
        requires
            self.wf(),
            0 <= i <= j <= self.steps,
        ensures
            self.progress_spec(i) <= self.progress_spec(j),
            ease_spec(self.progress_spec(i)) <= ease_spec(self.progress_spec(j)),
    {
        let n = self.steps as int;
        let a = i * 1_000_000;
        let b = j * 1_000_000;
        assert(a / n <= b / n) by (nonlinear_arith)
            requires
                0 <= a <= b,
                n >= 1,
        ;
        self.lemma_progress_bounded(i);
        self.lemma_progress_bounded(j);
        lemma_ease_monotone(self.progress_spec(i), self.progress_spec(j));
    }

    /// Schedules `path` over `duration_us` microseconds. A duration of zero
    /// is refused.
    pub fn schedule(path: TrajectorySpec, duration_us: u64) -> (r: Result<Motion, MotionError>)
        ensures
            duration_us == 0 ==> r == Err::<Motion, MotionError>(MotionError::InvalidDuration),
            duration_us > 0 ==> r == Ok::<Motion, MotionError>(
                Motion::schedule_spec(path, duration_us as int),
            ),
            r matches Ok(m) ==> m.wf(),
    {
        match step_count(duration_us) {
            Err(e) => Err(e),
            Ok(steps) => {
                proof {
                    lemma_interval_fills_duration(duration_us as int);
                }
                let interval: u128 = (duration_us as u128) * 1_000 / (steps as u128);
                Ok(Motion { path, steps, interval_ns: interval as u64 })
            },
        }
    }

    /// Linear progress at sample `i`, in millionths.
    pub fn progress(&self, i: u64) -> (t: u64)
        requires
            self.wf(),
            i <= self.steps,
        ensures
            t == self.progress_spec(i as int),
            t <= FULL_PROGRESS,
    {
        proof {
            self.lemma_progress_bounded(i as int);
        }
        let scaled: u128 = (i as u128) * (FULL_PROGRESS as u128);
        (scaled / (self.steps as u128)) as u64
    }

    /// Sub-pixel position at sample `i`.
    pub fn position(&self, i: u64) -> (p: Point)
        requires
            self.wf(),
            i <= self.steps,
        ensures
            p == self.position_spec(i as int),
            i == 0 ==> p == self.path.start,
            i == self.steps ==> p == self.path.end,
    {
        proof {
            self.lemma_progress_bounded(i as int);
            lemma_ease_fixed_points();
        }
        let eased: u64 = ease_in_out_cubic(self.progress(i));
        bezier_cubic(eased, self.path.start, self.path.ctrl1, self.path.ctrl2, self.path.end)
    }

    /// Device pixel emitted at sample `i`.
    pub fn sample(&self, i: u64) -> (px: (u16, u16))
        requires
            self.wf(),
            i <= self.steps,
        ensures
            px == self.sample_spec(i as int),
            i == 0 ==> px == self.path.start.pixel_spec(),
            i == self.steps ==> px == self.path.end.pixel_spec(),
    {
        self.position(i).pixel()
    }

    /// All samples of the move in order: one more than there are steps, the
    /// first at the start of the trajectory and the last at its end.
    pub fn samples(&self) -> (out: Vec<(u16, u16)>)
        requires
            self.wf(),
            self.steps < usize::MAX,
        ensures
            out@.len() == self.steps + 1,
            forall|i: int| 0 <= i <= self.steps ==> out@[i] == self.sample_spec(i),
            out@[0] == self.path.start.pixel_spec(),
            out@[self.steps as int] == self.path.end.pixel_spec(),
    {
        let mut out: Vec<(u16, u16)> = Vec::new();
        let mut i: u64 = 0;
        while i <= self.steps
            invariant
                self.wf(),
                self.steps < usize::MAX,
                i <= self.steps + 1,
                out@.len() == i,
                forall|k: int| 0 <= k < i ==> out@[k] == self.sample_spec(k),
                i > 0 ==> out@[0] == self.path.start.pixel_spec(),
                i > self.steps ==> out@[self.steps as int] == self.path.end.pixel_spec(),
            decreases self.steps + 1 - i,
        {
            let px = self.sample(i);
            out.push(px);
            i = i + 1;
        }
        out
    }
}

} // verus!
