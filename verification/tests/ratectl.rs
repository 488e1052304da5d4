use slack_morphism::ratectl::team_limits::SlackTeamLimits;
use slack_morphism::ratectl::throttling_counter::ThrottlingCounter;

/// The extra delay of an overdrawn counter, reckoned in floating point.
fn penalty(c: &ThrottlingCounter) -> u64 {
    (c.rate_limit_in_millis() as f64 * c.capacity().abs() as f64 / c.max_capacity() as f64) as u64
}

/// Fifteen requests a minute: one every four seconds.
const CAPACITY: usize = 15;
const RATE_LIMIT_IN_MS: u64 = 60_000 / 15;

#[test]
fn check_decreased() {
    let now: u64 = 1_000_000;
    let counter = ThrottlingCounter::new_at(CAPACITY, RATE_LIMIT_IN_MS, now);
    let updated_counter = counter.update(now + (RATE_LIMIT_IN_MS - 1), penalty(&counter));

    assert_eq!(updated_counter.last_arrived(), counter.last_arrived());
    assert_eq!(updated_counter.delay(), 0);
    assert_eq!(updated_counter.capacity(), counter.capacity() - 1);
}

#[test]
fn check_max_available() {
    let now: u64 = 1_000_000;
    let counter = ThrottlingCounter::new_at(CAPACITY, RATE_LIMIT_IN_MS, now);
    let updated_counter = counter.update(now + (RATE_LIMIT_IN_MS + 1), penalty(&counter));

    assert_eq!(updated_counter.delay(), 0);
    assert_eq!(updated_counter.capacity(), (counter.max_capacity() - 1) as i64);
}

#[test]
fn check_delay() {
    let counter = ThrottlingCounter::new(CAPACITY, RATE_LIMIT_IN_MS);
    let now = counter.last_updated();

    let updated_counter = (0..counter.capacity() + 1).fold(counter.clone(), |result, _| result.update(now, penalty(&result)));

    assert_eq!(updated_counter.delay(), counter.rate_limit_in_millis());
}

#[test]
fn overdrawn_counter_adds_a_penalty() {
    let now: u64 = 0;
    let mut counter = ThrottlingCounter::new_at(4, 1000, now);
    for _ in 0..5 {
        counter = counter.update(now, penalty(&counter));
    }
    // capacity is now -1: the next request waits a period plus 1000 * 1 / 4
    let next = counter.update(now, penalty(&counter));
    assert_eq!(next.capacity(), -2);
    assert_eq!(next.delay(), 1000 + 250);
}

#[test]
fn waiting_since_the_last_update_shortens_the_delay() {
    let mut counter = ThrottlingCounter::new_at(1, 1000, 0);
    counter = counter.update(0, penalty(&counter));
    assert_eq!(counter.capacity(), 0);
    let later = counter.update(400, penalty(&counter));
    assert_eq!(later.delay(), 600);
    assert_eq!(later.last_updated(), 400);
}

#[test]
fn arrivals_refill_up_to_the_maximum() {
    let mut counter = ThrottlingCounter::new_at(3, 100, 0);
    for _ in 0..3 {
        counter = counter.update(0, penalty(&counter));
    }
    assert_eq!(counter.capacity(), 0);
    // two whole periods and a half have passed: two arrivals, counted from
    // the last arrival
    let refilled = counter.update(250, penalty(&counter));
    assert_eq!(refilled.capacity(), 1);
    assert_eq!(refilled.last_arrived(), 200);
    assert_eq!(refilled.delay(), 0);
    // a long wait refills no more than the maximum
    let full = refilled.update(10_000, penalty(&refilled));
    assert_eq!(full.capacity(), 2);
}

#[test]
fn clock_going_back_counts_as_no_time() {
    let counter = ThrottlingCounter::new_at(2, 100, 1000);
    let updated = counter.update(500, penalty(&counter));
    assert_eq!(updated.capacity(), 1);
    assert_eq!(updated.last_arrived(), 1000);
    assert_eq!(updated.last_updated(), 500);
}

#[test]
fn team_limits_start_empty() {
    let limits = SlackTeamLimits::new_at(Some((10, 6000)), 42);
    assert_eq!(limits.updated, 42);
    assert!(limits.tier_limits.is_empty());
    assert!(limits.special_limits.is_empty());
    let counter = limits.team_limit_counter.unwrap();
    assert_eq!(counter.capacity(), 10);
    assert_eq!(counter.max_capacity(), 10);
    assert_eq!(counter.rate_limit_in_millis(), 6000);
    assert_eq!(counter.last_arrived(), 42);
    assert!(SlackTeamLimits::new(None).team_limit_counter.is_none());
}

#[test]
fn a_maximal_capacity_beyond_i64_wraps() {
    let counter = ThrottlingCounter::new_at(usize::MAX, 1000, 0);
    assert_eq!(counter.capacity(), usize::MAX as i64);
    let updated = counter.update(0, penalty(&counter));
    assert_eq!(updated.capacity(), usize::MAX as i64 - 1);
    assert_eq!(updated.delay(), 1000);
}

#[test]
fn a_second_request_at_the_same_instant_takes_one_more_unit() {
    let fresh = ThrottlingCounter::new_at(2, 100, 0);
    let first = fresh.update(150, penalty(&fresh));
    let second = first.update(150, penalty(&first));
    assert_eq!(second.capacity(), first.capacity() - 1);
    assert_eq!(second.last_arrived(), first.last_arrived());
    assert_eq!(second.delay(), 0);
    let third = second.update(150, penalty(&second));
    assert_eq!(third.capacity(), -1);
    assert_eq!(third.delay(), 100);
}

#[test]
fn the_penalty_is_taken_as_given() {
    // a rate of 2^53 + 1 milliseconds is 2^53 in floating point
    let rate: u64 = (1 << 53) + 1;
    let mut counter = ThrottlingCounter::new_at(1, rate, 0);
    for _ in 0..2 {
        counter = counter.update(0, penalty(&counter));
    }
    assert_eq!(counter.delay(), rate);
    assert_eq!(penalty(&counter), 1 << 53);
    let third = counter.update(0, penalty(&counter));
    assert_eq!(third.delay(), (1 << 54) + 1);
}

#[test]
fn updates_that_would_overflow_are_refused() {
    let counter = ThrottlingCounter::new_at(1, 0, 0);
    assert!(!counter.can_update(0, 0));
    let counter = ThrottlingCounter::new_at(0, 10, 0);
    assert!(counter.can_update(0, 0));
    assert!(!counter.can_update(0, u64::MAX));
    assert!(ThrottlingCounter::new_at(1, 10, 0).can_update(0, u64::MAX));
}
