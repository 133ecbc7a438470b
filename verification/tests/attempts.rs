use shared_assets::auth::attempts::{
    is_locked_out, is_locked_out_at, lockout_remaining_secs, lockout_remaining_secs_at,
    record_attempt, record_attempt_at, reset_attempts, AttemptStore,
};
use shared_assets::clock::{Duration, Instant};

#[test]
fn starts_unlocked() {
    let mut store = AttemptStore::new();
    let lockout = Duration::from_secs(60);
    assert!(!is_locked_out(&mut store, "1.2.3.4", 3, lockout));
}

#[test]
fn locks_after_max_attempts() {
    let mut store = AttemptStore::new();
    let lockout = Duration::from_secs(60);
    for _ in 0..3 {
        record_attempt(&mut store, "1.2.3.4");
    }
    assert!(is_locked_out(&mut store, "1.2.3.4", 3, lockout));
}

#[test]
fn not_locked_below_threshold() {
    let mut store = AttemptStore::new();
    let lockout = Duration::from_secs(60);
    record_attempt(&mut store, "1.2.3.4");
    record_attempt(&mut store, "1.2.3.4");
    assert!(!is_locked_out(&mut store, "1.2.3.4", 3, lockout));
}

#[test]
fn reset_clears_lockout() {
    let mut store = AttemptStore::new();
    let lockout = Duration::from_secs(60);
    for _ in 0..3 {
        record_attempt(&mut store, "1.2.3.4");
    }
    assert!(is_locked_out(&mut store, "1.2.3.4", 3, lockout));
    reset_attempts(&mut store, "1.2.3.4");
    assert!(!is_locked_out(&mut store, "1.2.3.4", 3, lockout));
}

#[test]
fn distinct_ips_are_independent() {
    let mut store = AttemptStore::new();
    let lockout = Duration::from_secs(60);
    for _ in 0..3 {
        record_attempt(&mut store, "1.1.1.1");
    }
    assert!(is_locked_out(&mut store, "1.1.1.1", 3, lockout));
    assert!(!is_locked_out(&mut store, "2.2.2.2", 3, lockout));
}

#[test]
fn remaining_secs_zero_when_not_locked() {
    let mut store = AttemptStore::new();
    assert_eq!(
        lockout_remaining_secs(&mut store, "1.2.3.4", Duration::from_secs(60)),
        0
    );
}

#[test]
fn remaining_secs_positive_when_locked() {
    let mut store = AttemptStore::new();
    let lockout = Duration::from_secs(60);
    for _ in 0..3 {
        record_attempt(&mut store, "1.2.3.4");
    }
    let remaining = lockout_remaining_secs(&mut store, "1.2.3.4", lockout);
    assert!(remaining > 0 && remaining <= 60);
}

fn at_secs(s: u64) -> Instant {
    Instant::from_nanos(s * 1_000_000_000)
}

#[test]
fn record_counts_and_stamps() {
    let mut store = AttemptStore::new();
    let a = record_attempt_at(&mut store, "9.9.9.9", at_secs(5));
    assert_eq!(a.count, 1);
    assert_eq!(a.last_attempt, at_secs(5));
    let b = record_attempt_at(&mut store, "9.9.9.9", at_secs(7));
    assert_eq!(b.count, 2);
    assert_eq!(b.last_attempt, at_secs(7));
    assert_eq!(store.attempt_count("9.9.9.9"), 2);
    assert_eq!(store.attempt_count("8.8.8.8"), 0);
}

#[test]
fn lockout_expires_and_clears_record() {
    let mut store = AttemptStore::new();
    let lockout = Duration::from_secs(60);
    for t in [0, 1, 2] {
        record_attempt_at(&mut store, "1.2.3.4", at_secs(t));
    }
    assert!(is_locked_out_at(&mut store, "1.2.3.4", 3, lockout, at_secs(61)));
    assert_eq!(lockout_remaining_secs_at(&store, "1.2.3.4", lockout, at_secs(2)), 60);
    assert_eq!(lockout_remaining_secs_at(&store, "1.2.3.4", lockout, at_secs(30)), 32);
    assert!(!is_locked_out_at(&mut store, "1.2.3.4", 3, lockout, at_secs(62)));
    assert!(store.get("1.2.3.4").is_none());
}

#[test]
fn expired_check_below_threshold_keeps_record() {
    let mut store = AttemptStore::new();
    let lockout = Duration::from_secs(60);
    record_attempt_at(&mut store, "1.2.3.4", at_secs(0));
    assert!(!is_locked_out_at(&mut store, "1.2.3.4", 3, lockout, at_secs(600)));
    assert_eq!(store.attempt_count("1.2.3.4"), 1);
}

#[test]
fn remaining_secs_rounds_down_and_ignores_threshold() {
    let mut store = AttemptStore::new();
    let lockout = Duration::from_secs(60);
    record_attempt_at(&mut store, "5.5.5.5", Instant::from_nanos(0));
    assert_eq!(
        lockout_remaining_secs_at(&store, "5.5.5.5", lockout, Instant::from_nanos(1)),
        59
    );
    assert_eq!(lockout_remaining_secs_at(&store, "5.5.5.5", lockout, at_secs(60)), 0);
}

#[test]
fn zero_threshold_locks_any_recorded_ip() {
    let mut store = AttemptStore::new();
    let lockout = Duration::from_secs(60);
    assert!(!is_locked_out_at(&mut store, "7.7.7.7", 0, lockout, at_secs(0)));
    record_attempt_at(&mut store, "7.7.7.7", at_secs(0));
    assert!(is_locked_out_at(&mut store, "7.7.7.7", 0, lockout, at_secs(1)));
}

#[test]
fn clear_drops_every_record() {
    let mut store = AttemptStore::new();
    record_attempt_at(&mut store, "1.1.1.1", at_secs(0));
    record_attempt_at(&mut store, "2.2.2.2", at_secs(0));
    store.clear();
    assert_eq!(store.attempt_count("1.1.1.1"), 0);
    assert_eq!(store.attempt_count("2.2.2.2"), 0);
}

#[test]
fn elapsed_nanos_saturate_at_u64_max() {
    assert_eq!(Instant::from_elapsed_nanos(42).nanos, 42);
    assert_eq!(Instant::from_elapsed_nanos(u64::MAX as u128).nanos, u64::MAX);
    assert_eq!(Instant::from_elapsed_nanos(u64::MAX as u128 + 1).nanos, u64::MAX);
}

#[test]
fn store_clock_never_goes_back() {
    let mut store = AttemptStore::new();
    let mut prev = store.now();
    for _ in 0..100 {
        let t = store.now();
        assert!(t.nanos >= prev.nanos);
        prev = t;
    }
}
