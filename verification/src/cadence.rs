//! Timing models for clicks and keystrokes, and the mapping from characters
//! to key codes.

use vstd::prelude::*;
use rand::rngs::StdRng;
use crate::random::uniform;

verus! {

/// A button is held for at least this many milliseconds ...
pub const CLICK_HOLD_MIN_MS: u64 = 30;

/// ... and for less than this many.
pub const CLICK_HOLD_END_MS: u64 = 75;

/// A key is held for at least this many milliseconds ...
pub const KEY_HOLD_MIN_MS: u64 = 25;

/// ... and for less than this many.
pub const KEY_HOLD_END_MS: u64 = 60;

/// No pause between two characters is shorter than this many milliseconds.
pub const MIN_KEY_DELAY_MS: u64 = 10;

/// Key code of the letter `a`; the other letters follow in alphabetical order.
pub const KEY_CODE_A: u8 = 0x04;

/// Key code of the space bar.
pub const KEY_CODE_SPACE: u8 = 0x2C;

/// A word is counted as this many characters when a typing speed is given in
/// words per minute.
pub const CHARS_PER_WORD: u64 = 5;

/// One button press: which buttons go down and how long they stay down.
#[derive(Clone, Copy, Debug, PartialEq, Eq, Structural)]
pub struct Click {
    pub left: bool,
    pub right: bool,
    pub hold_ms: u64,
}

impl Click {
    /// The hold time is one a click can have.
    pub open spec fn hold_in_range(self) -> bool {
        CLICK_HOLD_MIN_MS <= self.hold_ms < CLICK_HOLD_END_MS
    }

    /// A press of the given buttons with a freshly drawn hold time.
    pub fn draw(rng: &mut StdRng, left: bool, right: bool) -> (c: Click)
        ensures
            c.left == left,
            c.right == right,
            c.hold_in_range(),
    {
        let hold: i64 = uniform(rng, CLICK_HOLD_MIN_MS as i64, CLICK_HOLD_END_MS as i64);
        Click { left, right, hold_ms: hold as u64 }
    }
}

/// The key that types `ch`: the lowercase letters `a` to `z` have consecutive
/// codes from `KEY_CODE_A`, the space has its own, nothing else has a key.
pub open spec fn key_code_spec(ch: char) -> Option<u8> {
    if 'a' <= ch <= 'z' {
        Some((ch as u8 - 'a' as u8 + KEY_CODE_A) as u8)
    } else if ch == ' ' {
        Some(KEY_CODE_SPACE)
    } else {
        None
    }
}

/// The key that types `ch`, if there is one.
pub fn key_code(ch: char) -> (code: Option<u8>)
    ensures
        code == key_code_spec(ch),
{
    if 'a' <= ch && ch <= 'z' {
        let offset: u8 = (ch as u8) - ('a' as u8);
        Some(offset + KEY_CODE_A)
    } else if ch == ' ' {
        Some(KEY_CODE_SPACE)
    } else {
        None
    }
}

/// Only the lowercase letters and the space have a key, and no key has the
/// code zero.
pub proof fn lemma_keyed_characters(ch: char)
    ensures
        key_code_spec(ch) is Some <==> ('a' <= ch <= 'z' || ch == ' '),
        key_code_spec(ch) matches Some(code) ==> code == KEY_CODE_SPACE || KEY_CODE_A <= code
            < KEY_CODE_A + 26,
{
}

/// A key going down and coming up again.
#[derive(Clone, Copy, Debug, PartialEq, Eq, Structural)]
pub struct KeyPress {
    pub code: u8,
    pub hold_ms: u64,
}

/// What typing one character amounts to: a key press if the character has a
/// key, and the pause before the next character either way.
#[derive(Clone, Copy, Debug, PartialEq, Eq, Structural)]
pub struct KeyStroke {
    pub press: Option<KeyPress>,
    pub delay_ms: u64,
}

/// The pause after a character, given the raw draw from the delay
/// distribution in milliseconds: the draw itself, but never less than
/// `MIN_KEY_DELAY_MS`.
pub open spec fn key_delay_spec(raw_ms: int) -> int {
    if raw_ms < MIN_KEY_DELAY_MS {
        MIN_KEY_DELAY_MS as int
    } else {
        raw_ms
    }
}

/// The pause after a character for the raw draw `raw_ms`.
pub fn key_delay(raw_ms: i64) -> (delay_ms: u64)
    ensures
        delay_ms == key_delay_spec(raw_ms as int),
        delay_ms >= MIN_KEY_DELAY_MS,
{
    if raw_ms < MIN_KEY_DELAY_MS as i64 {
        MIN_KEY_DELAY_MS
    } else {
        raw_ms as u64
    }
}

impl KeyStroke {
    /// The stroke that types `ch` with the key held for `hold_ms` and the raw
    /// delay draw `raw_delay_ms`. A character without a key gives no press,
    /// and the hold time goes unused.
    pub open spec fn compose_spec(ch: char, hold_ms: u64, raw_delay_ms: i64) -> KeyStroke {
        KeyStroke {
            press: match key_code_spec(ch) {
                Some(code) => Some(KeyPress { code, hold_ms }),
                None => None,
            },
            delay_ms: key_delay_spec(raw_delay_ms as int) as u64,
        }
    }

    /// The stroke is one that typing `ch` with the raw delay draw
    /// `raw_delay_ms` can give: the right key or none, a hold time in range,
    /// and the clamped delay.
    pub open spec fn types(self, ch: char, raw_delay_ms: i64) -> bool {
        &&& self.delay_ms == key_delay_spec(raw_delay_ms as int)
        &&& match key_code_spec(ch) {
            Some(code) => self.press matches Some(p) && p.code == code && KEY_HOLD_MIN_MS
                <= p.hold_ms < KEY_HOLD_END_MS,
            None => self.press is None,
        }
    }

    /// Typing a character that has no key presses nothing, and still takes
    /// its pause.
    pub proof fn lemma_unkeyed_still_pauses(self, ch: char, raw_delay_ms: i64)
        requires
            self.types(ch, raw_delay_ms),
            !('a' <= ch <= 'z'),
            ch != ' ',
        ensures
            self.press is None,
            self.delay_ms >= MIN_KEY_DELAY_MS,
            self.delay_ms == key_delay_spec(raw_delay_ms as int),
    {
    }

    /// The stroke that types `ch`, out of an already drawn hold time and raw
    /// delay.
    pub fn compose(ch: char, hold_ms: u64, raw_delay_ms: i64) -> (k: KeyStroke)
        ensures
            k == KeyStroke::compose_spec(ch, hold_ms, raw_delay_ms),
            KEY_HOLD_MIN_MS <= hold_ms < KEY_HOLD_END_MS ==> k.types(ch, raw_delay_ms),
    {
        let press = match key_code(ch) {
            Some(code) => Some(KeyPress { code, hold_ms }),
            None => None,
        };
        KeyStroke { press, delay_ms: key_delay(raw_delay_ms) }
    }

    /// The stroke that types `ch`. A hold time is drawn from `rng` only if the
    /// character has a key.
    pub fn draw(rng: &mut StdRng, ch: char, raw_delay_ms: i64) -> (k: KeyStroke)
        ensures
            k.types(ch, raw_delay_ms),
            k.delay_ms >= MIN_KEY_DELAY_MS,
    {
        let press = match key_code(ch) {
            Some(code) => {
                let hold: i64 = uniform(rng, KEY_HOLD_MIN_MS as i64, KEY_HOLD_END_MS as i64);
                Some(KeyPress { code, hold_ms: hold as u64 })
            },
            None => None,
        };
        KeyStroke { press, delay_ms: key_delay(raw_delay_ms) }
    }
}

/// The distribution that raw delays between characters are drawn from: a
/// normal distribution with this mean and standard deviation, both in
/// microseconds.
#[derive(Clone, Copy, Debug, PartialEq, Eq, Structural)]
pub struct TypingCadence {
    pub mean_us: u64,
    pub sd_us: u64,
}

impl TypingCadence {
    /// Mean delay per character at `wpm` words per minute, in microseconds:
    /// a minute divided by the characters typed in it, rounded down.
    pub open spec fn base_delay_us_spec(wpm: int) -> int {
        60_000_000int / (wpm * CHARS_PER_WORD)
    }

    /// The cadence at `wpm` words per minute: the base delay as mean, three
    /// tenths of it as standard deviation.
    pub open spec fn for_wpm_spec(wpm: int) -> TypingCadence {
        TypingCadence {
            mean_us: TypingCadence::base_delay_us_spec(wpm) as u64,
            sd_us: (TypingCadence::base_delay_us_spec(wpm) * 3 / 10) as u64,
        }
    }

    /// The cadence at `wpm` words per minute.
    pub fn for_wpm(wpm: u32) -> (c: TypingCadence)
        requires
            wpm > 0,
        ensures
            c == TypingCadence::for_wpm_spec(wpm as int),
            c.mean_us <= 12_000_000,
    {
        let chars_per_minute: u64 = (wpm as u64) * CHARS_PER_WORD;
        let mean_us: u64 = 60_000_000 / chars_per_minute;
        assert(mean_us <= 12_000_000) by (nonlinear_arith)
            requires
                chars_per_minute >= 5,
                mean_us == 60_000_000int / (chars_per_minute as int),
        ;
        TypingCadence { mean_us, sd_us: mean_us * 3 / 10 }
    }
}

} // verus!
