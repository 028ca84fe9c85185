//! The driver: it remembers where the pointer last landed and plans moves,
//! clicks and typing from there.

use vstd::prelude::*;
use rand::rngs::StdRng;
use crate::bezier::Point;
use crate::cadence::{key_code_spec, Click, KeyStroke, MIN_KEY_DELAY_MS};
use crate::schedule::{interval_ns_spec, step_count_spec, Motion, MotionError};
use crate::trajectory::TrajectorySpec;

verus! {

/// Where the pointer is taken to be: the landing point of the last move, not
/// the pixel that move was aimed at.
pub struct DriverState {
    position: Point,
}

impl View for DriverState {
    type V = Point;

    closed spec fn view(&self) -> Point {
        self.position
    }
}

impl DriverState {
    #[verifier::type_invariant]
    spec fn within_reach(self) -> bool {
        self.position.in_reach()
    }

    /// The state of a pointer resting on pixel `(x, y)`.
    pub fn at_pixel(x: u16, y: u16) -> (s: DriverState)
        ensures
            s@ == Point::of_pixel(x, y),
    {
        DriverState { position: Point::at_pixel(x, y) }
    }

    /// The state of a pointer that has landed on `p`.
    pub(crate) fn landed(p: Point) -> (s: DriverState)
        requires
            p.in_reach(),
        ensures
            s@ == p,
    {
        DriverState { position: p }
    }

    /// The recorded position. It is always one a move can land on.
    pub fn position(&self) -> (p: Point)
        ensures
            p == self@,
            p.in_reach(),
    {
        proof {
            use_type_invariant(self);
        }
        self.position
    }
}

/// Plans human-like input. It owns the random generator its draws come from
/// and the position the next move departs from.
pub struct HumanDriver {
    rng: StdRng,
    state: DriverState,
}

impl View for HumanDriver {
    type V = Point;

    closed spec fn view(&self) -> Point {
        self.state@
    }
}

impl HumanDriver {
    /// A driver that draws from `rng`, with the pointer on pixel
    /// `(start_x, start_y)`.
    pub fn new(rng: StdRng, start_x: u16, start_y: u16) -> (d: HumanDriver)
        ensures
            d@ == Point::of_pixel(start_x, start_y),
    {
        HumanDriver { rng, state: DriverState::at_pixel(start_x, start_y) }
    }

    /// The recorded pointer position.
    pub fn position(&self) -> (p: Point)
        ensures
            p == self@,
            p.in_reach(),
    {
        self.state.position()
    }

    /// Plans a move from the recorded position to pixel
    /// `(target_x, target_y)` that lasts `duration_us` microseconds, and
    /// records its landing point as the new position.
    ///
    /// A duration of zero is refused before anything is drawn, and the
    /// position stays as it was.
    pub fn move_to_humanly(&mut self, target_x: u16, target_y: u16, duration_us: u64) -> (r: Result<
        Motion,
        MotionError,
    >)
        ensures
            duration_us == 0 ==> {
                &&& r == Err::<Motion, MotionError>(MotionError::InvalidDuration)
                &&& final(self)@ == old(self)@
            },
            duration_us > 0 ==> {
                &&& r matches Ok(m)
                &&& m.wf()
                &&& m.steps == step_count_spec(duration_us as int)
                &&& m.interval_ns == interval_ns_spec(duration_us as int)
                &&& m.path.shaped_for(old(self)@, target_x, target_y)
                &&& final(self)@ == m.path.end
            },
            duration_us > 0 ==> final(self)@.lands_near(target_x, target_y),
    {
        if duration_us == 0 {
            return Err(MotionError::InvalidDuration);
        }
        let start = self.state.position();
        let path = TrajectorySpec::generate(&mut self.rng, start, target_x, target_y);
        match Motion::schedule(path, duration_us) {
            Ok(motion) => {
                proof {
                    crate::schedule::lemma_interval_fills_duration(duration_us as int);
                }
                self.state = DriverState::landed(path.end);
                Ok(motion)
            },
            Err(e) => Err(e),
        }
    }

    /// Plans a press of the given buttons with a freshly drawn hold time.
    /// The pointer stays where it is.
    pub fn click_humanly(&mut self, left: bool, right: bool) -> (c: Click)
        ensures
            c.left == left,
            c.right == right,
            c.hold_in_range(),
            final(self)@ == old(self)@,
    {
        Click::draw(&mut self.rng, left, right)
    }

    /// Plans the typing of one character, given the raw draw for the pause
    /// that follows it. The pointer stays where it is.
    pub fn type_key(&mut self, ch: char, raw_delay_ms: i64) -> (k: KeyStroke)
        ensures
            k.types(ch, raw_delay_ms),
            k.delay_ms >= MIN_KEY_DELAY_MS,
            final(self)@ == old(self)@,
    {
        KeyStroke::draw(&mut self.rng, ch, raw_delay_ms)
    }

    /// Plans the typing of `text`, one stroke per character in order, given
    /// one raw delay draw per character. The pointer stays where it is.
    ///
    /// Gives `None`, and draws nothing, if the number of draws differs from
    /// the number of characters.
    pub fn type_humanly(&mut self, text: &str, raw_delays_ms: &Vec<i64>) -> (plan: Option<
        Vec<KeyStroke>,
    >)
        ensures
            plan is Some <==> raw_delays_ms@.len() == text@.len(),
            plan matches Some(strokes) ==> {
                &&& strokes@.len() == text@.len()
                &&& forall|i: int|
                    0 <= i < text@.len() ==> (#[trigger] strokes@[i]).types(
                        text@[i],
                        raw_delays_ms@[i],
                    )
                &&& forall|i: int|
                    0 <= i < text@.len() ==> (#[trigger] strokes@[i]).delay_ms >= MIN_KEY_DELAY_MS
                &&& forall|i: int|
                    0 <= i < text@.len() && key_code_spec(text@[i]) is None ==> (
                    #[trigger] strokes@[i]).press is None
            },
            final(self)@ == old(self)@,
    {
        let n: usize = text.unicode_len();
        if raw_delays_ms.len() != n {
            return None;
        }
        let mut strokes: Vec<KeyStroke> = Vec::new();
        let mut i: usize = 0;
        while i < n
            invariant
                n == text@.len(),
                raw_delays_ms@.len() == n,
                i <= n,
                strokes@.len() == i,
                forall|k: int|
                    0 <= k < i ==> (#[trigger] strokes@[k]).types(text@[k], raw_delays_ms@[k]),
                forall|k: int| 0 <= k < i ==> (#[trigger] strokes@[k]).delay_ms >= MIN_KEY_DELAY_MS,
                self@ == old(self)@,
            decreases n - i,
        {
            let ch: char = text.get_char(i);
            let stroke = KeyStroke::draw(&mut self.rng, ch, raw_delays_ms[i]);
            strokes.push(stroke);
            i = i + 1;
        }
        Some(strokes)
    }
}

} // verus!
