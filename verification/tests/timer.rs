use beavy_game::timer::RepeatingTimer;

#[test]
fn new_timer_has_not_finished() {
    let timer = RepeatingTimer::new(1_000_000_000);
    assert_eq!(timer.period, 1_000_000_000);
    assert_eq!(timer.elapsed, 0);
    assert_eq!(timer.times_finished_this_tick, 0);
    assert!(!timer.just_finished());
}

#[test]
fn tick_below_period_accumulates() {
    let mut timer = RepeatingTimer::new(1_000_000_000);
    timer.tick(400_000_000);
    assert_eq!(timer.elapsed, 400_000_000);
    assert!(!timer.just_finished());
    timer.tick(599_999_999);
    assert_eq!(timer.elapsed, 999_999_999);
    assert!(!timer.just_finished());
}

#[test]
fn tick_reaching_period_wraps() {
    let mut timer = RepeatingTimer::new(1_000_000_000);
    timer.tick(1_500_000_000);
    assert!(timer.just_finished());
    assert_eq!(timer.times_finished_this_tick, 1);
    assert_eq!(timer.elapsed, 500_000_000);
    timer.tick(500_000_000);
    assert!(timer.just_finished());
    assert_eq!(timer.elapsed, 0);
    timer.tick(100);
    assert!(!timer.just_finished());
    assert_eq!(timer.times_finished_this_tick, 0);
    assert_eq!(timer.elapsed, 100);
}

#[test]
fn tick_counts_every_period_completed() {
    let mut timer = RepeatingTimer::new(1_000_000_000);
    timer.tick(6_000_000_000);
    assert_eq!(timer.times_finished_this_tick, 6);
    assert_eq!(timer.elapsed, 0);
    timer.tick(2_000_000_001);
    assert_eq!(timer.times_finished_this_tick, 2);
    assert_eq!(timer.elapsed, 1);
    timer.tick(500_000_000);
    assert_eq!(timer.times_finished_this_tick, 0);
}

#[test]
fn zero_period_finishes_every_tick() {
    let mut timer = RepeatingTimer::new(0);
    timer.tick(0);
    assert!(timer.just_finished());
    assert_eq!(timer.times_finished_this_tick, u32::MAX);
    assert_eq!(timer.elapsed, 0);
    timer.tick(17);
    assert!(timer.just_finished());
    assert_eq!(timer.elapsed, 0);
}

#[test]
fn count_of_periods_is_kept_in_32_bits() {
    let mut timer = RepeatingTimer::new(1);
    timer.tick(1 << 32);
    assert_eq!(timer.times_finished_this_tick, 0);
    assert!(!timer.just_finished());
    assert_eq!(timer.elapsed, 0);
    timer.tick((1 << 32) + 5);
    assert_eq!(timer.times_finished_this_tick, 5);
    assert!(timer.just_finished());
}

#[test]
fn tick_near_the_largest_values() {
    let mut timer = RepeatingTimer {
        period: u64::MAX,
        elapsed: u64::MAX - 1,
        times_finished_this_tick: 0,
    };
    timer.tick(u64::MAX);
    assert_eq!(timer.times_finished_this_tick, 1);
    assert_eq!(timer.elapsed, u64::MAX - 1);
    let mut small = RepeatingTimer { period: 10, elapsed: 25, times_finished_this_tick: 0 };
    small.tick(0);
    assert_eq!(small.times_finished_this_tick, 2);
    assert_eq!(small.elapsed, 5);
}
