use paddleball::{SpawnRedBallTimer, RED_BALL_SPAWN_TIME};

const SECOND: u64 = 1_000_000_000;

#[test]
fn default_countdown_has_a_period_of_one_second() {
    let timer = SpawnRedBallTimer::default();
    assert_eq!(RED_BALL_SPAWN_TIME, SECOND);
    assert_eq!(timer.period_nanos(), SECOND);
    assert_eq!(timer.elapsed_nanos(), 0);
}

#[test]
fn one_and_a_half_periods_fire_once_and_keep_the_half() {
    let mut timer = SpawnRedBallTimer::new(SECOND).unwrap();
    assert_eq!(timer.tick(1_500_000_000), 1);
    assert_eq!(timer.elapsed_nanos(), 500_000_000);
    assert_eq!(timer.period_nanos(), SECOND);
}

#[test]
fn two_periods_fire_twice_and_keep_nothing() {
    let mut timer = SpawnRedBallTimer::new(SECOND).unwrap();
    assert_eq!(timer.tick(2 * SECOND), 2);
    assert_eq!(timer.elapsed_nanos(), 0);
}

#[test]
fn the_kept_half_counts_towards_the_next_firing() {
    let mut timer = SpawnRedBallTimer::new(SECOND).unwrap();
    assert_eq!(timer.tick(1_500_000_000), 1);
    assert_eq!(timer.tick(500_000_000), 1);
    assert_eq!(timer.elapsed_nanos(), 0);
}

#[test]
fn less_than_a_period_does_not_fire() {
    let mut timer = SpawnRedBallTimer::new(SECOND).unwrap();
    assert_eq!(timer.tick(999_999_999), 0);
    assert_eq!(timer.elapsed_nanos(), 999_999_999);
    assert_eq!(timer.tick(1), 1);
    assert_eq!(timer.elapsed_nanos(), 0);
}

#[test]
fn a_tick_of_no_time_changes_nothing() {
    let mut timer = SpawnRedBallTimer::new(SECOND).unwrap();
    assert_eq!(timer.tick(400), 0);
    assert_eq!(timer.tick(0), 0);
    assert_eq!(timer.elapsed_nanos(), 400);
}

#[test]
fn every_period_within_one_tick_fires() {
    let mut timer = SpawnRedBallTimer::new(SECOND).unwrap();
    assert_eq!(timer.tick(6 * SECOND + 250), 6);
    assert_eq!(timer.elapsed_nanos(), 250);
}

#[test]
fn a_period_of_seven_nanoseconds() {
    let mut timer = SpawnRedBallTimer::new(7).unwrap();
    assert_eq!(timer.tick(3), 0);
    assert_eq!(timer.tick(25), 4);
    assert_eq!(timer.elapsed_nanos(), 0);
    assert_eq!(timer.tick(20), 2);
    assert_eq!(timer.elapsed_nanos(), 6);
}

#[test]
fn the_longest_tick_on_the_longest_period() {
    let mut timer = SpawnRedBallTimer::new(u64::MAX).unwrap();
    assert_eq!(timer.tick(u64::MAX - 1), 0);
    assert_eq!(timer.elapsed_nanos(), u64::MAX - 1);
    assert_eq!(timer.tick(u64::MAX), 1);
    assert_eq!(timer.elapsed_nanos(), u64::MAX - 1);
}

#[test]
fn the_count_of_firings_wraps_beyond_32_bits() {
    let mut timer = SpawnRedBallTimer::new(1).unwrap();
    assert_eq!(timer.tick(u32::MAX as u64), u32::MAX);
    assert_eq!(timer.tick(1 << 32), 0);
    assert_eq!(timer.tick((1 << 32) + 5), 5);
    assert_eq!(timer.elapsed_nanos(), 0);
}

#[test]
fn a_period_of_zero_is_refused() {
    assert!(SpawnRedBallTimer::new(0).is_none());
    assert!(SpawnRedBallTimer::new(1).is_some());
}

#[test]
fn two_ticks_fire_as_often_as_one_tick_of_their_joint_length() {
    let cases: [(u64, u64, u64); 6] = [
        (1_000, 1_500, 500),
        (1_000, 999, 1),
        (7, 3, 25),
        (SECOND, 16_666_667, 16_666_667),
        (3, 0, 10),
        (u64::MAX, u64::MAX - 1, 1),
    ];
    for (period, first, second) in cases {
        let mut split = SpawnRedBallTimer::new(period).unwrap();
        let fired = split.tick(first) + split.tick(second);
        let mut joint = SpawnRedBallTimer::new(period).unwrap();
        assert_eq!(joint.tick(first + second), fired);
        assert_eq!(joint.elapsed_nanos(), split.elapsed_nanos());
    }
}
