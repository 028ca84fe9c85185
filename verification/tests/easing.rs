use minke_driver::easing::ease_in_out_cubic;
use minke_driver::units::FULL_PROGRESS;

#[test]
fn ease_fixed_points() {
    assert_eq!(ease_in_out_cubic(0), 0);
    assert_eq!(ease_in_out_cubic(FULL_PROGRESS / 2), FULL_PROGRESS / 2);
    assert_eq!(ease_in_out_cubic(FULL_PROGRESS), FULL_PROGRESS);
}

#[test]
fn ease_exact_values() {
    // 4 * 0.25^3 = 0.0625
    assert_eq!(ease_in_out_cubic(250_000), 62_500);
    // 1 - 4 * 0.25^3 = 0.9375
    assert_eq!(ease_in_out_cubic(750_000), 937_500);
    // 4 * 0.1^3 = 0.004
    assert_eq!(ease_in_out_cubic(100_000), 4_000);
    // 1 - 4 * 0.1^3 = 0.996
    assert_eq!(ease_in_out_cubic(900_000), 996_000);
    // 4 * 0.499999^3 = 0.499997000005999996, rounded down
    assert_eq!(ease_in_out_cubic(499_999), 499_997);
    assert_eq!(ease_in_out_cubic(500_001), 500_003);
}

#[test]
fn ease_is_flat_at_both_ends() {
    // 4 * t^3 stays under one millionth up to t = 0.006299
    assert_eq!(ease_in_out_cubic(1), 0);
    assert_eq!(ease_in_out_cubic(6_299), 0);
    assert_eq!(ease_in_out_cubic(6_300), 1);
    assert_eq!(ease_in_out_cubic(FULL_PROGRESS - 1), FULL_PROGRESS);
    assert_eq!(ease_in_out_cubic(FULL_PROGRESS - 6_299), FULL_PROGRESS);
    assert_eq!(ease_in_out_cubic(FULL_PROGRESS - 6_300), FULL_PROGRESS - 1);
}

#[test]
fn ease_never_decreases() {
    let mut last: u64 = 0;
    let mut t: u64 = 0;
    while t <= FULL_PROGRESS {
        let e = ease_in_out_cubic(t);
        assert!(e >= last, "ease({}) = {} fell below {}", t, e, last);
        assert!(e <= FULL_PROGRESS);
        last = e;
        t += 97;
    }
    assert_eq!(ease_in_out_cubic(FULL_PROGRESS), FULL_PROGRESS);
}

#[test]
fn ease_second_half_mirrors_first() {
    let mut t: u64 = 0;
    while t <= FULL_PROGRESS {
        assert_eq!(
            ease_in_out_cubic(FULL_PROGRESS - t),
            FULL_PROGRESS - ease_in_out_cubic(t)
        );
        t += 1_231;
    }
}

#[test]
fn ease_lags_then_leads() {
    let mut t: u64 = 0;
    while t <= FULL_PROGRESS / 2 {
        assert!(ease_in_out_cubic(t) <= t);
        assert!(ease_in_out_cubic(FULL_PROGRESS - t) >= FULL_PROGRESS - t);
        t += 4_999;
    }
}

#[test]
fn ease_agrees_with_floating_point_formula() {
    let mut t: u64 = 0;
    while t <= FULL_PROGRESS {
        let x = t as f64 / 1e6;
        let expected = if x < 0.5 {
            4.0 * x * x * x
        } else {
            1.0 - (-2.0 * x + 2.0).powi(3) / 2.0
        };
        let got = ease_in_out_cubic(t) as f64 / 1e6;
        assert!((got - expected).abs() < 2e-6, "t = {}", t);
        t += 10_007;
    }
}
