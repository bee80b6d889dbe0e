use pool_metrics::metrics::Metrics;
use pool_metrics::time::{next_reading, Clock, Duration, Instant};

const MS: u64 = 1_000_000;

fn at(ms: u64) -> Instant {
    Instant::from_nanos(ms * MS)
}

#[test]
fn fresh_record_is_new_and_unaged() {
    let m = Metrics::new(at(7));
    assert_eq!(m.recycle_count, 0);
    assert_eq!(m.recycled, None);
    assert_eq!(m.created, at(7));
    assert_eq!(m.requested, at(7));
    assert_eq!(m.acquired, at(7));
    assert_eq!(m.age_at(at(7)), Duration::from_nanos(0));
}

#[test]
fn fresh_record_from_clock_is_nearly_unaged() {
    let mut clock = Clock::new();
    let m = Metrics::new(clock.now());
    assert!(m.age(&mut clock).as_nanos() < 1_000 * MS);
}

#[test]
fn create_latency_present_only_before_recycle() {
    let mut m = Metrics::new(at(10));
    m.request(at(4));
    assert_eq!(m.create_latency(), Some(Duration::from_nanos(6 * MS)));
    m.recycle(at(20));
    assert_eq!(m.create_latency(), None);
    m.recycle(at(30));
    assert_eq!(m.create_latency(), None);
}

#[test]
fn recycle_counts_and_keeps_latest_instant() {
    let mut m = Metrics::new(at(0));
    for i in 1..=5u64 {
        m.recycle(at(10 * i));
    }
    assert_eq!(m.recycle_count, 5);
    assert_eq!(m.recycled, Some(at(50)));
    assert_eq!(m.created, at(0));
}

#[test]
fn acquisition_latency_follows_latest_cycle() {
    let mut m = Metrics::new(at(0));
    m.request(at(1));
    m.acquire(at(4));
    assert_eq!(m.acquisition_latency(), Duration::from_nanos(3 * MS));
    m.recycle(at(10));
    m.request(at(20));
    m.acquire(at(27));
    assert_eq!(m.acquisition_latency(), Duration::from_nanos(7 * MS));
}

#[test]
fn last_used_is_age_before_recycle() {
    let mut m = Metrics::new(at(3));
    assert_eq!(m.last_used_at(at(40)), m.age_at(at(40)));
    assert_eq!(m.last_used_at(at(40)), Duration::from_nanos(37 * MS));
    m.recycle(at(30));
    assert_eq!(m.last_used_at(at(40)), Duration::from_nanos(10 * MS));
    assert_eq!(m.age_at(at(40)), Duration::from_nanos(37 * MS));
}

#[test]
fn request_acquire_recycle_scenario() {
    let mut m = Metrics::new(at(0));
    m.request(at(0));
    m.acquire(at(5));
    assert_eq!(m.acquisition_latency(), Duration::from_nanos(5 * MS));
    assert_eq!(m.create_latency(), Some(Duration::from_nanos(0)));
    m.recycle(at(100));
    assert_eq!(m.recycle_count, 1);
    assert_eq!(m.create_latency(), None);
    assert_eq!(m.last_used_at(at(150)), Duration::from_nanos(50 * MS));
}

#[test]
fn backwards_clock_saturates_to_zero() {
    let mut m = Metrics::new(at(50));
    m.request(at(9));
    m.acquire(at(8));
    assert_eq!(m.acquisition_latency(), Duration::from_nanos(0));
    assert_eq!(m.age_at(at(10)), Duration::from_nanos(0));
    assert_eq!(m.last_used_at(at(10)), Duration::from_nanos(0));
    let mut n = Metrics::new(at(2));
    n.request(at(9));
    assert_eq!(n.create_latency(), Some(Duration::from_nanos(0)));
}

#[test]
fn duration_since_extremes() {
    let top = Instant::from_nanos(u64::MAX);
    let zero = Instant::from_nanos(0);
    assert_eq!(top.duration_since(zero).as_nanos(), u64::MAX);
    assert_eq!(zero.duration_since(top).as_nanos(), 0);
    assert_eq!(top.as_nanos(), u64::MAX);
}

#[test]
fn clock_never_goes_backwards() {
    let mut clock = Clock::new();
    let mut prev = clock.now();
    for _ in 0..1000 {
        let next = clock.now();
        assert!(next.as_nanos() >= prev.as_nanos());
        prev = next;
    }
}

#[test]
fn clock_advances_with_real_time() {
    let mut clock = Clock::new();
    let start = clock.now();
    let begun = std::time::Instant::now();
    while begun.elapsed() < std::time::Duration::from_millis(2) {}
    let later = clock.now();
    assert!(later.duration_since(start).as_nanos() >= 2 * MS);
}

#[test]
fn last_used_by_clock_is_at_most_age() {
    let mut clock = Clock::new();
    let mut m = Metrics::new(clock.now());
    let begun = std::time::Instant::now();
    while begun.elapsed() < std::time::Duration::from_millis(1) {}
    m.recycle(clock.now());
    let idle = m.last_used(&mut clock);
    let age = m.age(&mut clock);
    assert!(idle.as_nanos() <= age.as_nanos());
    assert!(age.as_nanos() >= MS);
}

#[test]
fn next_reading_follows_the_clock() {
    assert_eq!(next_reading(at(3), (9 * MS) as u128), at(9));
    assert_eq!(next_reading(at(3), (3 * MS) as u128), at(3));
}

#[test]
fn next_reading_never_goes_backwards() {
    assert_eq!(next_reading(at(7), (2 * MS) as u128), at(7));
    assert_eq!(next_reading(at(7), 0), at(7));
}

#[test]
fn next_reading_saturates_beyond_u64() {
    let top = Instant::from_nanos(u64::MAX);
    assert_eq!(next_reading(at(1), u64::MAX as u128 + 1), top);
    assert_eq!(next_reading(at(1), u128::MAX), top);
    assert_eq!(next_reading(at(1), u64::MAX as u128), top);
}

#[test]
fn new_from_reads_the_clock() {
    let mut clock = Clock::new();
    let before = clock.now();
    let begun = std::time::Instant::now();
    while begun.elapsed() < std::time::Duration::from_millis(1) {}
    let m = Metrics::new_from(&mut clock);
    assert_eq!(m.recycle_count, 0);
    assert_eq!(m.recycled, None);
    assert_eq!(m.requested, m.created);
    assert_eq!(m.acquired, m.created);
    assert!(m.created.duration_since(before).as_nanos() >= MS);
    assert!(clock.now().as_nanos() >= m.created.as_nanos());
}
