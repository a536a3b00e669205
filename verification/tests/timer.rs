use space_invaders::timer::{Timer, NANOS_PER_SECOND};

#[test]
fn period_of_thirty_per_second() {
    let timer = Timer::time_per_second(30, 0);
    assert_eq!(timer.period(), 33_333_333);
}

#[test]
fn period_of_sixty_per_second() {
    let timer = Timer::time_per_second(60, 0);
    assert_eq!(timer.period(), 16_666_666);
}

#[test]
fn period_at_the_ends_of_the_rate() {
    assert_eq!(Timer::time_per_second(1, 0).period(), NANOS_PER_SECOND);
    assert_eq!(Timer::time_per_second(1_000_000_000, 0).period(), 1);
    assert_eq!(Timer::time_per_second(3, 0).period(), 333_333_333);
}

#[test]
fn tick_waits_for_a_full_period() {
    let mut timer = Timer::with_period(10, 100);
    assert!(!timer.tick(100));
    assert!(!timer.tick(109));
    assert!(timer.tick(110));
    assert!(!timer.tick(110));
    assert!(!timer.tick(119));
    assert!(timer.tick(120));
}

#[test]
fn tick_catches_up_one_period_at_a_time() {
    let mut timer = Timer::with_period(10, 0);
    assert!(timer.tick(35));
    assert!(timer.tick(35));
    assert!(timer.tick(35));
    assert!(!timer.tick(35));
    assert!(!timer.tick(39));
    assert!(timer.tick(40));
}

#[test]
fn tick_before_the_start_is_not_due() {
    let mut timer = Timer::with_period(10, 100);
    assert!(!timer.tick(0));
    assert!(!timer.tick(50));
    assert!(timer.tick(110));
}

#[test]
fn exhaust_counts_the_periods() {
    let mut timer = Timer::with_period(10, 0);
    assert_eq!(timer.exhaust(35), Some(3));
}

#[test]
fn exhaust_leaves_nothing_due() {
    let mut timer = Timer::with_period(10, 0);
    assert_eq!(timer.exhaust(35), Some(3));
    assert_eq!(timer.exhaust(35), None);
    assert!(!timer.tick(35));
}

#[test]
fn exhaust_keeps_the_started_period() {
    let mut timer = Timer::with_period(10, 0);
    assert_eq!(timer.exhaust(35), Some(3));
    assert!(!timer.tick(39));
    assert!(timer.tick(40));
}

#[test]
fn exhaust_with_nothing_due() {
    let mut timer = Timer::with_period(10, 100);
    assert_eq!(timer.exhaust(100), None);
    assert_eq!(timer.exhaust(109), None);
    assert_eq!(timer.exhaust(50), None);
    assert_eq!(timer.exhaust(110), Some(1));
}

#[test]
fn exhaust_equals_repeated_ticks() {
    let mut ticking = Timer::with_period(7, 3);
    let mut exhausting = Timer::with_period(7, 3);
    let mut count: u64 = 0;
    while ticking.tick(1000) {
        count += 1;
    }
    assert_eq!(count, 142);
    assert_eq!(exhausting.exhaust(1000), Some(142));
    assert_eq!(ticking.tick(1003), exhausting.tick(1003));
    assert_eq!(ticking.tick(1004), exhausting.tick(1004));
}

#[test]
fn timer_at_the_end_of_time() {
    let mut timer = Timer::with_period(u64::MAX, 0);
    assert!(!timer.tick(u64::MAX - 1));
    assert!(timer.tick(u64::MAX));
    assert!(!timer.tick(u64::MAX));
    let mut fast = Timer::with_period(1, u64::MAX - 2);
    assert_eq!(fast.exhaust(u64::MAX), Some(2));
    assert_eq!(fast.exhaust(u64::MAX), None);
    let mut whole = Timer::with_period(1, 0);
    assert_eq!(whole.exhaust(u64::MAX), Some(u64::MAX));
}

#[test]
fn period_is_kept() {
    let mut timer = Timer::with_period(10, 0);
    assert!(timer.tick(25));
    assert_eq!(timer.exhaust(100), Some(9));
    assert_eq!(timer.period(), 10);
}
