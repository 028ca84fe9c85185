use minke_driver::bezier::Point;
use minke_driver::schedule::{step_count, Motion, MotionError};
use minke_driver::trajectory::{Scatter, TrajectorySpec};
use minke_driver::units::FULL_PROGRESS;

fn pt(x: i64, y: i64) -> Point {
    Point { x, y }
}

fn straight(from: Point, target_x: u16, target_y: u16) -> TrajectorySpec {
    let none = Scatter { landing: pt(0, 0), departure: pt(0, 0), arrival: pt(0, 0) };
    TrajectorySpec::plan(from, target_x, target_y, none)
}

#[test]
fn step_count_is_duration_times_eighty_rounded() {
    assert_eq!(step_count(500_000), Ok(40));
    assert_eq!(step_count(1_000_000), Ok(80));
    assert_eq!(step_count(1_500_000), Ok(120));
    assert_eq!(step_count(1_200_000), Ok(96));
    assert_eq!(step_count(400_000), Ok(32));
    assert_eq!(step_count(200_000), Ok(16));
}

#[test]
fn step_count_rounds_to_nearest_with_halves_up() {
    // 18.749 ms is 1.49992 periods, 18.75 ms is 1.5
    assert_eq!(step_count(18_749), Ok(1));
    assert_eq!(step_count(18_750), Ok(2));
    assert_eq!(step_count(31_249), Ok(2));
    assert_eq!(step_count(31_250), Ok(3));
    assert_eq!(step_count(12_500), Ok(1));
}

#[test]
fn step_count_is_at_least_one() {
    assert_eq!(step_count(1), Ok(1));
    assert_eq!(step_count(1_000), Ok(1));
    assert_eq!(step_count(6_249), Ok(1));
    assert_eq!(step_count(6_250), Ok(1));
}

#[test]
fn step_count_refuses_zero() {
    assert_eq!(step_count(0), Err(MotionError::InvalidDuration));
}

#[test]
fn step_count_of_the_longest_duration() {
    // (2^64 - 1) * 80 / 10^6, rounded
    assert_eq!(step_count(u64::MAX), Ok(1_475_739_525_896_764));
}

#[test]
fn schedule_refuses_zero_duration() {
    let path = straight(Point::at_pixel(0, 0), 100, 100);
    assert_eq!(Motion::schedule(path, 0), Err(MotionError::InvalidDuration));
}

#[test]
fn schedule_spaces_samples_evenly() {
    let path = straight(Point::at_pixel(0, 0), 100, 100);
    let m = Motion::schedule(path, 500_000).unwrap();
    assert_eq!(m.path, path);
    assert_eq!(m.steps, 40);
    assert_eq!(m.interval_ns, 12_500_000);
    let n = Motion::schedule(path, 1_000).unwrap();
    assert_eq!((n.steps, n.interval_ns), (1, 1_000_000));
    // 100 ms is 8 steps of 12.5 ms; 110 ms is 9 steps of 12.222222 ms
    let a = Motion::schedule(path, 100_000).unwrap();
    assert_eq!((a.steps, a.interval_ns), (8, 12_500_000));
    let b = Motion::schedule(path, 110_000).unwrap();
    assert_eq!((b.steps, b.interval_ns), (9, 12_222_222));
    // the longest pause there is
    let c = Motion::schedule(path, 18_749).unwrap();
    assert_eq!((c.steps, c.interval_ns), (1, 18_749_000));
}

#[test]
fn schedule_of_the_longest_duration_fits() {
    let path = straight(Point::at_pixel(0, 0), 100, 100);
    let m = Motion::schedule(path, u64::MAX).unwrap();
    assert_eq!(m.steps, 1_475_739_525_896_764);
    assert_eq!(m.interval_ns, 12_500_000);
    assert_eq!(m.sample(0), (0, 0));
    assert_eq!(m.sample(m.steps), (100, 100));
    assert_eq!(m.progress(m.steps / 2), FULL_PROGRESS / 2);
}

#[test]
fn pauses_fill_the_duration() {
    let path = straight(Point::at_pixel(0, 0), 100, 100);
    for d in [1u64, 999, 6_250, 18_749, 18_750, 123_457, 500_000, 7_777_777, 3_600_000_000] {
        let m = Motion::schedule(path, d).unwrap();
        let total = m.steps as u128 * m.interval_ns as u128;
        assert!(total <= d as u128 * 1_000);
        assert!(d as u128 * 1_000 < total + m.steps as u128);
        assert!(m.interval_ns < 18_750_000);
    }
}

#[test]
fn progress_is_the_fraction_of_steps_done() {
    let path = straight(Point::at_pixel(0, 0), 100, 100);
    let m = Motion::schedule(path, 500_000).unwrap();
    assert_eq!(m.progress(0), 0);
    assert_eq!(m.progress(1), 25_000);
    assert_eq!(m.progress(10), 250_000);
    assert_eq!(m.progress(20), 500_000);
    assert_eq!(m.progress(40), FULL_PROGRESS);
    let thirds = Motion { path, steps: 3, interval_ns: 1 };
    assert_eq!(thirds.progress(1), 333_333);
    assert_eq!(thirds.progress(2), 666_666);
    assert_eq!(thirds.progress(3), FULL_PROGRESS);
}

#[test]
fn positions_follow_the_eased_curve() {
    // A straight path with control points at one and four fifths.
    let path = straight(Point::at_pixel(0, 0), 1_000, 0);
    let m = Motion::schedule(path, 500_000).unwrap();
    assert_eq!(m.position(0), pt(0, 0));
    assert_eq!(m.position(40), pt(1_000_000, 0));
    // halfway: eased progress one half, weights 1/8 3/8 3/8 1/8
    assert_eq!(m.position(20), pt(500_000, 0));
    // a quarter of the time: eased progress 1/16,
    // x = 3 (15/16)^2 (1/16) 200 + 3 (15/16) (1/16)^2 800 + (1/16)^3 1000 px
    //   = (135000 + 36000 + 1000) / 4096 px = 41.9921875 px
    assert_eq!(m.position(10), pt(41_992, 0));
    assert_eq!(m.sample(10), (41, 0));
    assert_eq!(m.position(30), pt(1_000_000 - 41_993, 0));
}

#[test]
fn samples_are_one_more_than_steps() {
    let path = straight(Point::at_pixel(960, 540), 500, 500);
    for (d, n) in [(500_000u64, 41usize), (1_000_000, 81), (1_000, 2), (12_500, 2), (25_000, 3)] {
        let m = Motion::schedule(path, d).unwrap();
        let samples = m.samples();
        assert_eq!(samples.len(), n);
        assert_eq!(samples[0], (960, 540));
        assert_eq!(samples[n - 1], (500, 500));
        for (i, s) in samples.iter().enumerate() {
            assert_eq!(*s, m.sample(i as u64));
        }
    }
}

#[test]
fn samples_start_slowly_and_end_slowly() {
    let path = straight(Point::at_pixel(0, 0), 8_000, 0);
    let m = Motion::schedule(path, 1_000_000).unwrap();
    let s = m.samples();
    let first_step = s[1].0 - s[0].0;
    let middle_step = s[41].0 - s[40].0;
    let last_step = s[80].0 - s[79].0;
    assert!(first_step < middle_step / 10);
    assert!(last_step < middle_step / 10);
    for i in 1..s.len() {
        assert!(s[i].0 >= s[i - 1].0);
    }
}

#[test]
fn samples_off_screen_are_pinned_to_the_edge() {
    let path = TrajectorySpec {
        start: pt(0, 0),
        ctrl1: pt(-900_000, 70_000_000),
        ctrl2: pt(-900_000, 70_000_000),
        end: pt(0, 0),
    };
    let m = Motion { path, steps: 2, interval_ns: 1 };
    assert_eq!(m.position(1), pt(-675_000, 52_500_000));
    assert_eq!(m.samples(), vec![(0, 0), (0, 52_500), (0, 0)]);
    let far = Motion { path: TrajectorySpec { ctrl1: pt(0, 200_000_000), ..path }, ..m };
    assert_eq!(far.sample(1), (0, 65_535));
}
