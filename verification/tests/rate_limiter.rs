use whatsapp_cloud::rate_limiter::{Admission, RateLimiter, WINDOW_MS};

#[test]
fn window_is_one_minute() {
    assert_eq!(WINDOW_MS, 60_000);
}

#[test]
fn fresh_limiter_is_empty() {
    let limiter = RateLimiter::new(250);
    assert_eq!(limiter.capacity(), 250);
    assert_eq!(limiter.in_flight(), 0);
}

#[test]
fn burst_of_four_against_three() {
    let mut limiter = RateLimiter::new(3);
    assert_eq!(limiter.try_acquire(0), Admission::Granted);
    assert_eq!(limiter.try_acquire(0), Admission::Granted);
    assert_eq!(limiter.try_acquire(0), Admission::Granted);
    assert_eq!(limiter.try_acquire(0), Admission::Delayed { wait_ms: 60_000 });
    assert_eq!(limiter.in_flight(), 3);
    assert_eq!(limiter.try_acquire(59_999), Admission::Delayed { wait_ms: 1 });
    assert_eq!(limiter.try_acquire(60_000), Admission::Granted);
    assert_eq!(limiter.in_flight(), 1);
}

#[test]
fn wait_is_measured_from_the_oldest_admission() {
    let mut limiter = RateLimiter::new(3);
    assert_eq!(limiter.try_acquire(1_000), Admission::Granted);
    assert_eq!(limiter.try_acquire(1_010), Admission::Granted);
    assert_eq!(limiter.try_acquire(1_020), Admission::Granted);
    assert_eq!(limiter.try_acquire(1_030), Admission::Delayed { wait_ms: 59_970 });
    assert_eq!(limiter.try_acquire(61_000), Admission::Granted);
    assert_eq!(limiter.in_flight(), 3);
    assert_eq!(limiter.try_acquire(61_005), Admission::Delayed { wait_ms: 5 });
    assert_eq!(limiter.try_acquire(61_010), Admission::Granted);
}

#[test]
fn exactly_one_of_n_plus_one_is_delayed() {
    for capacity in 1u32..20 {
        let mut limiter = RateLimiter::new(capacity);
        let mut delayed = 0;
        for _ in 0..capacity + 1 {
            if limiter.try_acquire(7) != Admission::Granted {
                delayed += 1;
            }
        }
        assert_eq!(delayed, 1);
        assert_eq!(limiter.in_flight(), capacity as usize);
    }
}

#[test]
fn never_more_than_capacity_within_a_window() {
    let mut limiter = RateLimiter::new(5);
    let mut admitted: Vec<u64> = Vec::new();
    let mut now = 0u64;
    for step in 0..2_000u64 {
        now += (step * 7919) % 4_000;
        if limiter.try_acquire(now) == Admission::Granted {
            let live = admitted.iter().filter(|t| now - **t < WINDOW_MS).count();
            assert!(live < 5);
            admitted.push(now);
        }
        assert!(limiter.in_flight() <= 5);
    }
    assert!(admitted.len() > 5);
}

#[test]
fn a_delayed_request_records_nothing() {
    let mut limiter = RateLimiter::new(1);
    assert_eq!(limiter.try_acquire(10), Admission::Granted);
    assert_eq!(limiter.try_acquire(20), Admission::Delayed { wait_ms: 59_990 });
    assert_eq!(limiter.try_acquire(30), Admission::Delayed { wait_ms: 59_980 });
    assert_eq!(limiter.in_flight(), 1);
}

#[test]
fn expired_admissions_are_pruned_on_request() {
    let mut limiter = RateLimiter::new(4);
    for t in [0u64, 100, 200, 300] {
        assert_eq!(limiter.try_acquire(t), Admission::Granted);
    }
    assert_eq!(limiter.in_flight(), 4);
    assert_eq!(limiter.try_acquire(60_150), Admission::Granted);
    assert_eq!(limiter.in_flight(), 3);
}

#[test]
fn time_never_runs_backwards() {
    let mut limiter = RateLimiter::new(2);
    assert_eq!(limiter.try_acquire(5_000), Admission::Granted);
    assert_eq!(limiter.try_acquire(1_000), Admission::Granted);
    assert_eq!(limiter.try_acquire(0), Admission::Delayed { wait_ms: 60_000 });
    assert_eq!(limiter.try_acquire(65_000), Admission::Granted);
}

#[test]
fn zero_capacity_never_admits() {
    let mut limiter = RateLimiter::new(0);
    assert_eq!(limiter.try_acquire(0), Admission::Delayed { wait_ms: 60_000 });
    assert_eq!(limiter.try_acquire(1_000_000), Admission::Delayed { wait_ms: 60_000 });
    assert_eq!(limiter.in_flight(), 0);
}

#[test]
fn server_cooldown_delays_admission() {
    let mut limiter = RateLimiter::new(10);
    limiter.note_server_throttle(1_000, 5_000);
    assert_eq!(limiter.try_acquire(1_000), Admission::Delayed { wait_ms: 5_000 });
    assert_eq!(limiter.try_acquire(5_999), Admission::Delayed { wait_ms: 1 });
    assert_eq!(limiter.try_acquire(6_000), Admission::Granted);
}

#[test]
fn the_larger_of_cooldown_and_window_wins() {
    let mut limiter = RateLimiter::new(1);
    assert_eq!(limiter.try_acquire(0), Admission::Granted);
    limiter.note_server_throttle(0, 5_000);
    assert_eq!(limiter.try_acquire(1_000), Admission::Delayed { wait_ms: 59_000 });
    limiter.note_server_throttle(1_000, 120_000);
    assert_eq!(limiter.try_acquire(2_000), Admission::Delayed { wait_ms: 119_000 });
    assert_eq!(limiter.try_acquire(121_000), Admission::Granted);
}

#[test]
fn a_shorter_cooldown_does_not_replace_a_longer_one() {
    let mut limiter = RateLimiter::new(10);
    limiter.note_server_throttle(0, 10_000);
    limiter.note_server_throttle(0, 2_000);
    assert_eq!(limiter.try_acquire(3_000), Admission::Delayed { wait_ms: 7_000 });
}

#[test]
fn cooldown_saturates_at_the_end_of_time() {
    let mut limiter = RateLimiter::new(10);
    limiter.note_server_throttle(u64::MAX - 5, 100);
    assert_eq!(limiter.try_acquire(u64::MAX - 5), Admission::Delayed { wait_ms: 5 });
    assert_eq!(limiter.try_acquire(u64::MAX), Admission::Granted);
}
