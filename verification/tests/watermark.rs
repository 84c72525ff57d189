use std::sync::atomic::Ordering;

use memory_control::watermark::{
    is_evictable, next_epoch, WatermarkClock, EPOCH_PHYSICAL_SHIFT_BITS, EPOCH_UNITS_PER_MS,
};

#[test]
fn epoch_units_match_the_shift() {
    assert_eq!(EPOCH_UNITS_PER_MS, 1u64 << EPOCH_PHYSICAL_SHIFT_BITS);
}

#[test]
fn clock_starts_at_zero() {
    let clock = WatermarkClock::new(100);
    assert_eq!(clock.current(), 0);
    assert_eq!(clock.tick_interval_ms(), 100);
    assert_eq!(clock.handle().load(Ordering::Relaxed), 0);
}

#[test]
fn step_zero_advances_by_the_base_delta() {
    assert_eq!(next_epoch(0, 100, 0), 6_553_600);
    assert_eq!(next_epoch(1, 10, 0), 655_361);
}

#[test]
fn each_unit_of_step_adds_one_base_delta() {
    assert_eq!(next_epoch(0, 100, 1), 2 * 6_553_600);
    assert_eq!(next_epoch(0, 100, 4), 5 * 6_553_600);
    assert_eq!(next_epoch(7, 1, 9), 7 + 10 * 65_536);
    assert_eq!(next_epoch(5, 0, 9), 5);
}

#[test]
fn epoch_stops_at_the_largest_value() {
    assert_eq!(next_epoch(u64::MAX, 100, 0), u64::MAX);
    assert_eq!(next_epoch(u64::MAX - 6_553_600, 100, 0), u64::MAX);
    assert_eq!(next_epoch(u64::MAX - 6_553_601, 100, 0), u64::MAX - 1);
    assert_eq!(next_epoch(0, u32::MAX, u32::MAX), u64::MAX);
}

#[test]
fn advance_publishes_to_every_handle() {
    let mut clock = WatermarkClock::new(100);
    let reader_a = clock.handle();
    let reader_b = clock.handle();
    clock.advance(0);
    assert_eq!(clock.current(), 6_553_600);
    assert_eq!(reader_a.load(Ordering::Relaxed), 6_553_600);
    clock.advance(2);
    assert_eq!(clock.current(), 4 * 6_553_600);
    assert_eq!(reader_a.load(Ordering::Relaxed), 4 * 6_553_600);
    assert_eq!(reader_b.load(Ordering::Relaxed), 4 * 6_553_600);
    assert_eq!(clock.handle().load(Ordering::Relaxed), 4 * 6_553_600);
}

#[test]
fn watermark_never_moves_backwards() {
    let mut clock = WatermarkClock::new(250);
    let reader = clock.handle();
    let steps = [0u32, 3, 0, 7, 1, 0, 0, 100, u32::MAX, 0, 5];
    let mut last = clock.current();
    for step in steps {
        clock.advance(step);
        assert!(clock.current() >= last);
        assert_eq!(reader.load(Ordering::Relaxed), clock.current());
        last = clock.current();
    }
}

#[test]
fn watermark_follows_ticks_and_cumulative_steps() {
    let mut clock = WatermarkClock::new(20);
    let steps = [0u32, 2, 5, 0, 1];
    for step in steps {
        clock.advance(step);
    }
    let base: u64 = 20 * 65_536;
    assert_eq!(clock.current(), base * (5 + 8));
}

#[test]
fn entries_strictly_before_the_watermark_may_go() {
    assert!(is_evictable(9, 10));
    assert!(!is_evictable(10, 10));
    assert!(!is_evictable(11, 10));
    assert!(!is_evictable(0, 0));
}

#[test]
fn evictable_entries_stay_evictable() {
    let mut clock = WatermarkClock::new(10);
    clock.advance(0);
    let entry = clock.current() - 1;
    assert!(is_evictable(entry, clock.current()));
    clock.advance(3);
    assert!(is_evictable(entry, clock.current()));
}
