use leaky_bucket::{LeakyBucket, NANOS_PER_SEC};

const SEC: u128 = NANOS_PER_SEC;

#[test]
fn new_bucket_is_empty() {
    let b = LeakyBucket::new(3, 1);
    assert_eq!(b.capacity(), 3);
    assert_eq!(b.leak_rate(), 1);
    assert_eq!(b.current_level(), 0);
    assert_eq!(b.last_update(), 0);
}

#[test]
fn three_admitted_then_rejected_then_drains_two() {
    let mut b = LeakyBucket::new(3, 1);
    assert!(b.add_event_at(0));
    assert!(b.add_event_at(0));
    assert!(b.add_event_at(0));
    assert!(!b.add_event_at(0));
    assert_eq!(b.remaining_capacity_at(0), 0);
    assert_eq!(b.remaining_capacity_at(2 * SEC), 2);
    assert_eq!(b.current_level(), 1);
    assert_eq!(b.last_update(), 2 * SEC);
}

#[test]
fn burst_on_the_real_clock() {
    let mut b = LeakyBucket::new(3, 1);
    assert!(b.add_event());
    assert!(b.add_event());
    assert!(b.add_event());
    assert!(!b.add_event());
    assert_eq!(b.remaining_capacity(), 0);
}

#[test]
fn remaining_capacity_on_the_real_clock() {
    let mut b = LeakyBucket::new(4, 1);
    assert_eq!(b.remaining_capacity(), 4);
    assert!(b.add_event());
    assert_eq!(b.remaining_capacity(), 3);
    assert!(b.elapsed_nanos() < 60 * SEC);
}

#[test]
fn admits_exactly_capacity_events() {
    let mut b = LeakyBucket::new(5, 1);
    for _ in 0..5 {
        assert!(b.add_event_at(SEC / 2));
    }
    assert!(!b.add_event_at(SEC / 2));
    assert_eq!(b.current_level(), 5);
}

#[test]
fn level_never_exceeds_capacity() {
    let mut b = LeakyBucket::new(2, 1);
    let mut admitted: u64 = 0;
    for _ in 0..10 {
        if b.add_event_at(0) {
            admitted += 1;
        }
        assert!(b.current_level() <= b.capacity());
    }
    assert_eq!(admitted, 2);
}

#[test]
fn decay_drains_rate_times_whole_seconds() {
    let mut b = LeakyBucket::new(10, 2);
    for _ in 0..7 {
        assert!(b.add_event_at(0));
    }
    // 3.5 s: three whole seconds drain 6 units, leaving 1.
    assert_eq!(b.remaining_capacity_at(3 * SEC + SEC / 2), 9);
    assert_eq!(b.current_level(), 1);
}

#[test]
fn decay_clamps_at_zero() {
    let mut b = LeakyBucket::new(10, 5);
    for _ in 0..4 {
        assert!(b.add_event_at(0));
    }
    assert_eq!(b.remaining_capacity_at(10 * SEC), 10);
    assert_eq!(b.current_level(), 0);
}

#[test]
fn decay_without_overflow_on_extreme_values() {
    let mut b = LeakyBucket::new(u64::MAX, u64::MAX);
    assert!(b.add_event_at(0));
    assert!(b.add_event_at(0));
    assert_eq!(b.remaining_capacity_at(u128::MAX), u64::MAX);
    assert_eq!(b.current_level(), 0);
    assert_eq!(b.last_update(), u128::MAX);
}

#[test]
fn under_a_second_does_not_drain() {
    let mut b = LeakyBucket::new(3, 1);
    assert!(b.add_event_at(0));
    assert_eq!(b.remaining_capacity_at(SEC - 1), 2);
    assert_eq!(b.current_level(), 1);
    assert_eq!(b.last_update(), 0);
}

#[test]
fn remaining_capacity_twice_at_one_time() {
    let mut b = LeakyBucket::new(3, 1);
    for _ in 0..3 {
        assert!(b.add_event_at(0));
    }
    let first = b.remaining_capacity_at(SEC + SEC / 2);
    let level = b.current_level();
    let second = b.remaining_capacity_at(SEC + SEC / 2);
    assert_eq!(first, 1);
    assert_eq!(second, first);
    assert_eq!(b.current_level(), level);
}

#[test]
fn zero_capacity_rejects_everything() {
    let mut b = LeakyBucket::new(0, 3);
    for t in [0u128, SEC / 3, SEC, 5 * SEC, 1000 * SEC] {
        assert!(!b.add_event_at(t));
        assert_eq!(b.remaining_capacity_at(t), 0);
    }
    assert!(!b.add_event());
    assert_eq!(b.remaining_capacity(), 0);
}

#[test]
fn zero_leak_rate_stays_full() {
    let mut b = LeakyBucket::new(2, 0);
    assert!(b.add_event_at(0));
    assert!(b.add_event_at(0));
    for t in [SEC, 60 * SEC, 86_400 * SEC] {
        assert!(!b.add_event_at(t));
        assert_eq!(b.remaining_capacity_at(t), 0);
        assert_eq!(b.current_level(), 2);
    }
}

#[test]
fn last_update_never_moves_backward() {
    let mut b = LeakyBucket::new(3, 1);
    assert!(b.add_event_at(0));
    assert_eq!(b.remaining_capacity_at(5 * SEC), 3);
    assert_eq!(b.last_update(), 5 * SEC);
    // An earlier reading drains nothing and keeps the last drain time.
    assert!(b.add_event_at(2 * SEC));
    assert_eq!(b.last_update(), 5 * SEC);
    assert_eq!(b.current_level(), 1);
}

#[test]
fn drain_window_restarts_at_each_drain() {
    // The drain clock restarts at the time of each drain, so the sub-second
    // part of the elapsed time is discarded rather than carried over.
    let mut b = LeakyBucket::new(3, 1);
    for _ in 0..3 {
        assert!(b.add_event_at(0));
    }
    assert_eq!(b.remaining_capacity_at(SEC + SEC / 2), 1);
    assert_eq!(b.last_update(), SEC + SEC / 2);
    // Two whole seconds since creation, but only half a second since the drain.
    assert_eq!(b.remaining_capacity_at(2 * SEC), 1);
    assert_eq!(b.current_level(), 2);
    assert_eq!(b.remaining_capacity_at(2 * SEC + SEC / 2), 2);
}
