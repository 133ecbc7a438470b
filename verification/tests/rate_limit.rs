use shared_assets::clock::{Duration, Instant};
use shared_assets::rate_limit::{RateLimiter, DEFAULT_MAX_REQUESTS, DEFAULT_WINDOW_SECS};

fn at_millis(ms: u64) -> Instant {
    Instant::from_nanos(ms * 1_000_000)
}

#[test]
fn allows_under_budget() {
    let mut rl = RateLimiter::with_limits(3, Duration::from_secs(60));
    let ip = "10.0.0.1";
    assert!(rl.check(ip));
    assert!(rl.check(ip));
    assert!(rl.check(ip));
}

#[test]
fn rejects_over_budget() {
    let mut rl = RateLimiter::with_limits(2, Duration::from_secs(60));
    let ip = "10.0.0.2";
    assert!(rl.check(ip));
    assert!(rl.check(ip));
    assert!(!rl.check(ip));
    assert!(!rl.check(ip));
}

#[test]
fn budget_is_per_ip() {
    let mut rl = RateLimiter::with_limits(1, Duration::from_secs(60));
    let a = "10.0.0.3";
    let b = "10.0.0.4";
    assert!(rl.check(a));
    assert!(!rl.check(a));
    assert!(rl.check(b));
}

/// Waits (without sleeping the thread) until `ms` milliseconds have passed.
fn wait_millis(ms: u64) {
    let start = std::time::Instant::now();
    while start.elapsed() < std::time::Duration::from_millis(ms) {
        std::hint::spin_loop();
    }
}

#[test]
fn cleanup_drops_idle_ips() {
    let mut rl = RateLimiter::with_limits(5, Duration::from_millis(10));
    let ip = "10.0.0.5";
    assert!(rl.check(ip));
    assert_eq!(rl.tracked_ips(), 1);
    wait_millis(20);
    rl.cleanup();
    assert_eq!(rl.tracked_ips(), 0);
}

#[test]
fn expired_window_replenishes_budget() {
    let mut rl = RateLimiter::with_limits(1, Duration::from_millis(5));
    let ip = "10.0.0.6";
    assert!(rl.check(ip));
    assert!(!rl.check(ip));
    wait_millis(10);
    assert!(rl.check(ip));
}

#[test]
fn cleanup_drops_idle_ips_at_given_instants() {
    let mut rl = RateLimiter::with_limits(5, Duration::from_millis(10));
    let ip = "10.0.0.5";
    assert!(rl.check_at(ip, at_millis(0)));
    assert_eq!(rl.tracked_ips(), 1);
    rl.cleanup_at(at_millis(20));
    assert_eq!(rl.tracked_ips(), 0);
}

#[test]
fn expired_window_replenishes_budget_at_given_instants() {
    let mut rl = RateLimiter::with_limits(1, Duration::from_millis(5));
    let ip = "10.0.0.6";
    assert!(rl.check_at(ip, at_millis(0)));
    assert!(!rl.check_at(ip, at_millis(0)));
    assert!(rl.check_at(ip, at_millis(10)));
}

#[test]
fn defaults_are_one_hundred_per_minute() {
    let rl = RateLimiter::new();
    assert_eq!(rl.max_requests(), DEFAULT_MAX_REQUESTS);
    assert_eq!(rl.max_requests(), 100);
    assert_eq!(rl.window().as_secs(), DEFAULT_WINDOW_SECS);
    assert_eq!(rl.window().as_secs(), 60);
    assert_eq!(rl.tracked_ips(), 0);
    let d = RateLimiter::default();
    assert_eq!(d.max_requests(), 100);
}

#[test]
fn window_boundary_resets_exactly_at_window() {
    let mut rl = RateLimiter::with_limits(1, Duration::from_millis(10));
    assert!(rl.check_at("a", at_millis(0)));
    assert!(!rl.check_at("a", at_millis(9)));
    assert!(rl.check_at("a", at_millis(10)));
    let w = rl.window_of("a").unwrap();
    assert_eq!(w.start, at_millis(10));
    assert_eq!(w.count, 1);
}

#[test]
fn cleanup_keeps_running_windows() {
    let mut rl = RateLimiter::with_limits(5, Duration::from_millis(10));
    assert!(rl.check_at("old", at_millis(0)));
    assert!(rl.check_at("new", at_millis(15)));
    rl.cleanup_at(at_millis(20));
    assert_eq!(rl.tracked_ips(), 1);
    assert!(rl.window_of("old").is_none());
    assert_eq!(rl.window_of("new").unwrap().count, 1);
}

#[test]
fn refused_request_is_not_counted() {
    let mut rl = RateLimiter::with_limits(2, Duration::from_secs(60));
    for _ in 0..5 {
        rl.check_at("x", at_millis(1));
    }
    assert_eq!(rl.window_of("x").unwrap().count, 2);
}

#[test]
fn zero_budget_refuses_everything() {
    let mut rl = RateLimiter::with_limits(0, Duration::from_secs(60));
    assert!(!rl.check("z"));
    assert_eq!(rl.tracked_ips(), 1);
}
