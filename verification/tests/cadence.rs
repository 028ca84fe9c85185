use minke_driver::cadence::{key_code, key_delay, Click, KeyPress, KeyStroke, TypingCadence};
use rand::rngs::StdRng;
use rand::SeedableRng;
use rand_distr::{Distribution, Normal};

#[test]
fn letters_map_to_consecutive_codes() {
    assert_eq!(key_code('a'), Some(0x04));
    assert_eq!(key_code('b'), Some(0x05));
    assert_eq!(key_code('m'), Some(0x10));
    assert_eq!(key_code('z'), Some(0x1D));
    let mut expected: u8 = 0x04;
    for ch in 'a'..='z' {
        assert_eq!(key_code(ch), Some(expected));
        expected += 1;
    }
}

#[test]
fn space_has_its_own_code() {
    assert_eq!(key_code(' '), Some(0x2C));
}

#[test]
fn other_characters_have_no_key() {
    for ch in "0123456789.,;:!?-_()[]{}<>@#$%^&*+=/\\|~`'\"\t\n".chars() {
        assert_eq!(key_code(ch), None, "{:?}", ch);
    }
    for ch in ['A', 'Z', 'é', 'ß', 'я', '中', '\u{0}', '\u{10FFFF}', '`', '{'] {
        assert_eq!(key_code(ch), None, "{:?}", ch);
    }
}

#[test]
fn delay_is_clamped_to_ten_milliseconds() {
    assert_eq!(key_delay(200), 200);
    assert_eq!(key_delay(11), 11);
    assert_eq!(key_delay(10), 10);
    assert_eq!(key_delay(9), 10);
    assert_eq!(key_delay(0), 10);
    assert_eq!(key_delay(-350), 10);
    assert_eq!(key_delay(i64::MIN), 10);
    assert_eq!(key_delay(i64::MAX), i64::MAX as u64);
}

#[test]
fn compose_builds_the_stroke() {
    assert_eq!(
        KeyStroke::compose('z', 30, 7),
        KeyStroke { press: Some(KeyPress { code: 0x1D, hold_ms: 30 }), delay_ms: 10 }
    );
    assert_eq!(
        KeyStroke::compose(' ', 59, 183),
        KeyStroke { press: Some(KeyPress { code: 0x2C, hold_ms: 59 }), delay_ms: 183 }
    );
    assert_eq!(KeyStroke::compose('7', 40, 183), KeyStroke { press: None, delay_ms: 183 });
    assert_eq!(KeyStroke::compose('Q', 40, -1), KeyStroke { press: None, delay_ms: 10 });
}

#[test]
fn drawn_strokes_hold_between_25_and_60_ms() {
    let mut rng = StdRng::seed_from_u64(3);
    let mut seen = [false; 60];
    for i in 0..3_000i64 {
        let k = KeyStroke::draw(&mut rng, 'k', i);
        let press = k.press.unwrap();
        assert_eq!(press.code, 0x0E);
        assert!((25..60).contains(&press.hold_ms));
        seen[press.hold_ms as usize] = true;
        assert_eq!(k.delay_ms, if i < 10 { 10 } else { i as u64 });
    }
    // every hold time in the range turns up, none is favoured into absence
    assert!(seen[25..60].iter().all(|s| *s));
}

#[test]
fn unkeyed_strokes_draw_nothing() {
    // Typing a digit leaves the generator untouched.
    let mut a = StdRng::seed_from_u64(8);
    let mut b = StdRng::seed_from_u64(8);
    assert_eq!(KeyStroke::draw(&mut a, '5', 120), KeyStroke { press: None, delay_ms: 120 });
    assert_eq!(KeyStroke::draw(&mut a, 'x', 1), KeyStroke::draw(&mut b, 'x', 1));
}

#[test]
fn a_thousand_clicks_hold_between_30_and_75_ms() {
    let mut rng = StdRng::seed_from_u64(1);
    let mut seen = [false; 75];
    for _ in 0..1_000 {
        let c = Click::draw(&mut rng, true, false);
        assert!(c.left && !c.right);
        assert!((30..75).contains(&c.hold_ms), "hold {}", c.hold_ms);
        seen[c.hold_ms as usize] = true;
    }
    assert!(seen[30..75].iter().filter(|s| **s).count() > 40);
}

#[test]
fn click_keeps_the_button_selection() {
    let mut rng = StdRng::seed_from_u64(1);
    for (l, r) in [(true, true), (true, false), (false, true), (false, false)] {
        let c = Click::draw(&mut rng, l, r);
        assert_eq!((c.left, c.right), (l, r));
    }
}

#[test]
fn cadence_at_sixty_words_per_minute() {
    let c = TypingCadence::for_wpm(60);
    assert_eq!(c, TypingCadence { mean_us: 200_000, sd_us: 60_000 });
}

#[test]
fn cadence_exact_values() {
    assert_eq!(TypingCadence::for_wpm(1), TypingCadence { mean_us: 12_000_000, sd_us: 3_600_000 });
    assert_eq!(TypingCadence::for_wpm(40), TypingCadence { mean_us: 300_000, sd_us: 90_000 });
    // 12 s / 70 = 171428.57 us, three tenths of 171428 = 51428.4
    assert_eq!(TypingCadence::for_wpm(70), TypingCadence { mean_us: 171_428, sd_us: 51_428 });
    assert_eq!(TypingCadence::for_wpm(120), TypingCadence { mean_us: 100_000, sd_us: 30_000 });
    assert_eq!(TypingCadence::for_wpm(u32::MAX), TypingCadence { mean_us: 0, sd_us: 0 });
}

#[test]
fn mean_delay_of_a_large_sample_is_near_the_base_delay() {
    for wpm in [30u32, 60, 95] {
        let cadence = TypingCadence::for_wpm(wpm);
        let normal =
            Normal::new(cadence.mean_us as f64 / 1e3, cadence.sd_us as f64 / 1e3).unwrap();
        let mut rng = StdRng::seed_from_u64(wpm as u64);
        let n = 20_000;
        let mut sum: u64 = 0;
        for _ in 0..n {
            let raw = normal.sample(&mut rng) as i64;
            let delay = key_delay(raw);
            assert!(delay >= 10);
            sum += delay;
        }
        let mean = sum as f64 / n as f64;
        let base = 60_000.0 / (wpm as f64 * 5.0);
        assert!((mean - base).abs() < 0.03 * base, "wpm {}: mean {} base {}", wpm, mean, base);
    }
}
