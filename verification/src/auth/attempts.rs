//! Per-IP failed-attempt tracking with lockout.
//!
//! Throttles PIN-guessing attacks: after `max_attempts` failed attempts the
//! client IP is locked out for `lockout_duration`, counted from its latest
//! failed attempt. Records live in an `AttemptStore`, which the server
//! keeps for the life of the process so lockouts survive across requests.
//!
//! Each operation comes in two forms: `*_at` takes the current instant as
//! an argument and is specified exactly; the plain form reads the store's
//! clock and then does the same.

use vstd::prelude::*;
use crate::clock::{elapsed_nanos, Clock, Duration, Instant, NANOS_PER_SEC};
use crate::table::KeyTable;

verus! {

/// Single attempt record.
#[derive(Clone, Copy, Debug, PartialEq, Eq, Structural)]
pub struct Attempt {
    pub count: u32,
    pub last_attempt: Instant,
}

/// The failed-attempt records of all client IPs, with the clock that
/// stamps them.
pub struct AttemptStore {
    table: KeyTable<Attempt>,
    clock: Clock,
}

impl View for AttemptStore {
    type V = Map<Seq<char>, Attempt>;

    closed spec fn view(&self) -> Map<Seq<char>, Attempt> {
        self.table@
    }
}

/// `ip` is locked out at `now`: it has at least `max_attempts` failed
/// attempts and the latest is less than `lockout` ago.
pub open spec fn locked_spec(
    m: Map<Seq<char>, Attempt>,
    ip: Seq<char>,
    max_attempts: u32,
    lockout: Duration,
    now: Instant,
) -> bool {
    &&& m.contains_key(ip)
    &&& m[ip].count >= max_attempts
    &&& elapsed_nanos(m[ip].last_attempt, now) < lockout.nanos
}

/// The records after a lockout check: an expired lockout's record is
/// dropped, everything else stays.
pub open spec fn after_lock_check(
    m: Map<Seq<char>, Attempt>,
    ip: Seq<char>,
    max_attempts: u32,
    lockout: Duration,
    now: Instant,
) -> Map<Seq<char>, Attempt> {
    if m.contains_key(ip) && m[ip].count >= max_attempts && elapsed_nanos(m[ip].last_attempt, now)
        >= lockout.nanos {
        m.remove(ip)
    } else {
        m
    }
}

/// The failed attempts recorded for `ip` so far (zero without a record).
pub open spec fn count_of(m: Map<Seq<char>, Attempt>, ip: Seq<char>) -> int {
    if m.contains_key(ip) {
        m[ip].count as int
    } else {
        0
    }
}

/// The record of `ip` after one more failed attempt at `now`.
pub open spec fn recorded(m: Map<Seq<char>, Attempt>, ip: Seq<char>, now: Instant) -> Attempt {
    Attempt { count: (count_of(m, ip) + 1) as u32, last_attempt: now }
}

/// The records after one more failed attempt of `ip` at `now`.
pub open spec fn record_spec(m: Map<Seq<char>, Attempt>, ip: Seq<char>, now: Instant) -> Map<
    Seq<char>,
    Attempt,
> {
    m.insert(ip, recorded(m, ip, now))
}

/// Whole seconds left of `ip`'s lockout window at `now` (rounded down,
/// saturating at `u64::MAX`), zero without a record or once the window has
/// passed.
pub open spec fn remaining_secs_spec(
    m: Map<Seq<char>, Attempt>,
    ip: Seq<char>,
    lockout: Duration,
    now: Instant,
) -> int {
    if m.contains_key(ip) && elapsed_nanos(m[ip].last_attempt, now) < lockout.nanos {
        let secs = (lockout.nanos - elapsed_nanos(m[ip].last_attempt, now)) / (
        NANOS_PER_SEC as int);
        if secs > u64::MAX {
            u64::MAX as int
        } else {
            secs
        }
    } else {
        0
    }
}

/// The records after failed attempts of `ip` at each of `times`, in order.
pub open spec fn record_all(m: Map<Seq<char>, Attempt>, ip: Seq<char>, times: Seq<Instant>) -> Map<
    Seq<char>,
    Attempt,
>
    decreases times.len(),
{
    if times.len() == 0 {
        m
    } else {
        record_spec(record_all(m, ip, times.drop_last()), ip, times.last())
    }
}

impl AttemptStore {
    /// The records are well-formed.
    pub closed spec fn wf(&self) -> bool {
        self.table.wf()
    }

    /// The latest instant the store's clock has reported.
    pub closed spec fn latest(&self) -> Instant {
        self.clock.latest()
    }

    /// A store with no records and a clock started now.
    pub fn new() -> (s: AttemptStore)
        ensures
            s.wf(),
            s@ == Map::<Seq<char>, Attempt>::empty(),
            s.latest().nanos == 0,
    {
        AttemptStore { table: KeyTable::new(), clock: Clock::start() }
    }

    /// The current instant on the store's clock: never earlier than its
    /// previous reading. The records are left as they are.
    pub fn now(&mut self) -> (t: Instant)
        requires
            old(self).wf(),
        ensures
            final(self).wf(),
            final(self)@ == old(self)@,
            t.nanos >= old(self).latest().nanos,
            final(self).latest() == t,
    {
        self.clock.now()
    }

    /// The failed attempts recorded for `ip` (zero without a record).
    pub fn attempt_count(&self, ip: &str) -> (n: u32)
        requires
            self.wf(),
        ensures
            n == count_of(self@, ip@),
    {
        match self.table.get(ip) {
            Some(a) => a.count,
            None => 0,
        }
    }

    /// The record of `ip`, if any.
    pub fn get(&self, ip: &str) -> (r: Option<Attempt>)
        requires
            self.wf(),
        ensures
            r == if self@.contains_key(ip@) {
                Some(self@[ip@])
            } else {
                None
            },
    {
        self.table.get(ip)
    }

    /// Drop every record.
    pub fn clear(&mut self)
        requires
            old(self).wf(),
        ensures
            final(self).wf(),
            final(self)@ == Map::<Seq<char>, Attempt>::empty(),
            final(self).latest() == old(self).latest(),
    {
        self.table = KeyTable::new();
    }
}

/// True if `ip` is locked out at `now`. A lockout lasts `lockout_duration`
/// from the latest failed attempt; once it has passed, the record is
/// cleared and the IP may try again.
pub fn is_locked_out_at(
    store: &mut AttemptStore,
    ip: &str,
    max_attempts: u32,
    lockout_duration: Duration,
    now: Instant,
) -> (locked: bool)
    requires
        old(store).wf(),
    ensures
        final(store).wf(),
        locked == locked_spec(old(store)@, ip@, max_attempts, lockout_duration, now),
        final(store)@ == after_lock_check(old(store)@, ip@, max_attempts, lockout_duration, now),
        final(store).latest() == old(store).latest(),
{
    match store.table.get(ip) {
        Some(attempt) => {
            if attempt.count >= max_attempts {
                let elapsed = now.duration_since(attempt.last_attempt);
                if elapsed.nanos < lockout_duration.nanos {
                    return true;
                }
                store.table.remove(ip);
            }
            false
        },
        None => false,
    }
}

/// True if `ip` is locked out now (see `is_locked_out_at`), reading the
/// store's clock once.
pub fn is_locked_out(
    store: &mut AttemptStore,
    ip: &str,
    max_attempts: u32,
    lockout_duration: Duration,
) -> (locked: bool)
    requires
        old(store).wf(),
    ensures
        final(store).wf(),
        exists|now: Instant|
            now.nanos >= old(store).latest().nanos && final(store).latest() == now && locked
                == locked_spec(old(store)@, ip@, max_attempts, lockout_duration, now)
                && final(store)@ == after_lock_check(
                old(store)@,
                ip@,
                max_attempts,
                lockout_duration,
                now,
            ),
{
    let now = store.now();
    is_locked_out_at(store, ip, max_attempts, lockout_duration, now)
}

/// Record a failed attempt of `ip` at `now` and return the updated record.
pub fn record_attempt_at(store: &mut AttemptStore, ip: &str, now: Instant) -> (a: Attempt)
    requires
        old(store).wf(),
        count_of(old(store)@, ip@) < u32::MAX,
    ensures
        final(store).wf(),
        a == recorded(old(store)@, ip@, now),
        a.count == count_of(old(store)@, ip@) + 1,
        final(store)@ == record_spec(old(store)@, ip@, now),
        final(store).latest() == old(store).latest(),
{
    let count = match store.table.get(ip) {
        Some(attempt) => attempt.count,
        None => 0,
    };
    let updated = Attempt { count: count + 1, last_attempt: now };
    store.table.insert(ip, updated);
    updated
}

/// Record a failed attempt of `ip` now (reading the store's clock once)
/// and return the updated record.
pub fn record_attempt(store: &mut AttemptStore, ip: &str) -> (a: Attempt)
    requires
        old(store).wf(),
        count_of(old(store)@, ip@) < u32::MAX,
    ensures
        final(store).wf(),
        a.count == count_of(old(store)@, ip@) + 1,
        final(store)@ == old(store)@.insert(ip@, a),
        exists|now: Instant|
            now.nanos >= old(store).latest().nanos && final(store).latest() == now && a == recorded(
                old(store)@,
                ip@,
                now,
            ),
{
    let now = store.now();
    record_attempt_at(store, ip, now)
}

/// Clear the attempt record of `ip` (e.g. after a successful login).
pub fn reset_attempts(store: &mut AttemptStore, ip: &str)
    requires
        old(store).wf(),
    ensures
        final(store).wf(),
        final(store)@ == old(store)@.remove(ip@),
        final(store).latest() == old(store).latest(),
{
    store.table.remove(ip);
}

/// Seconds remaining in `ip`'s lockout window at `now`, or 0 without a
/// record or once the window has passed.
pub fn lockout_remaining_secs_at(
    store: &AttemptStore,
    ip: &str,
    lockout_duration: Duration,
    now: Instant,
) -> (secs: u64)
    requires
        store.wf(),
    ensures
        secs == remaining_secs_spec(store@, ip@, lockout_duration, now),
{
    match store.table.get(ip) {
        Some(attempt) => {
            let elapsed = now.duration_since(attempt.last_attempt);
            if elapsed.nanos < lockout_duration.nanos {
                let left = Duration { nanos: lockout_duration.nanos - elapsed.nanos };
                return left.as_secs();
            }
            0
        },
        None => 0,
    }
}

/// Seconds remaining in `ip`'s lockout window now (reading the store's
/// clock once), or 0 when not locked.
pub fn lockout_remaining_secs(store: &mut AttemptStore, ip: &str, lockout_duration: Duration) -> (secs:
    u64)
    requires
        old(store).wf(),
    ensures
        final(store).wf(),
        final(store)@ == old(store)@,
        exists|now: Instant|
            now.nanos >= old(store).latest().nanos && final(store).latest() == now && secs
                == remaining_secs_spec(old(store)@, ip@, lockout_duration, now),
{
    let now = store.now();
    lockout_remaining_secs_at(store, ip, lockout_duration, now)
}

/// After failed attempts at each of `times`, `ip` has `times.len()`
/// attempts on record, the latest at the last of `times` (for fewer than
/// `u32::MAX` attempts in all).
pub proof fn lemma_record_all(m: Map<Seq<char>, Attempt>, ip: Seq<char>, times: Seq<Instant>)
    requires
        !m.contains_key(ip),
        times.len() < u32::MAX,
    ensures
        times.len() > 0 ==> record_all(m, ip, times).contains_key(ip),
        times.len() > 0 ==> record_all(m, ip, times)[ip].count == times.len(),
        times.len() > 0 ==> record_all(m, ip, times)[ip].last_attempt == times.last(),
        count_of(record_all(m, ip, times), ip) == times.len(),
    decreases times.len(),
{
    if times.len() > 0 {
        lemma_record_all(m, ip, times.drop_last());
    }
}

/// Locks after max attempts: once an IP with no record has failed
/// `max_attempts` or more times, it is locked out for `lockout` after its
/// latest failure.
pub proof fn law_locks_after_max_attempts(
    m: Map<Seq<char>, Attempt>,
    ip: Seq<char>,
    times: Seq<Instant>,
    max_attempts: u32,
    lockout: Duration,
    now: Instant,
)
    requires
        !m.contains_key(ip),
        times.len() < u32::MAX,
        times.len() > 0,
        times.len() >= max_attempts,
        elapsed_nanos(times.last(), now) < lockout.nanos,
    ensures
        locked_spec(record_all(m, ip, times), ip, max_attempts, lockout, now),
{
    lemma_record_all(m, ip, times);
}

/// Not locked below the threshold: an IP with fewer than `max_attempts`
/// failures on record is never locked out.
pub proof fn law_not_locked_below_threshold(
    m: Map<Seq<char>, Attempt>,
    ip: Seq<char>,
    max_attempts: u32,
    lockout: Duration,
    now: Instant,
)
    requires
        count_of(m, ip) < max_attempts,
    ensures
        !locked_spec(m, ip, max_attempts, lockout, now),
        after_lock_check(m, ip, max_attempts, lockout, now) == m,
{
}

/// Reset clears the lockout: after `reset_attempts`, the IP is not locked
/// out, whatever the threshold and the time.
pub proof fn law_reset_clears_lockout(
    m: Map<Seq<char>, Attempt>,
    ip: Seq<char>,
    max_attempts: u32,
    lockout: Duration,
    now: Instant,
)
    ensures
        !locked_spec(m.remove(ip), ip, max_attempts, lockout, now),
        remaining_secs_spec(m.remove(ip), ip, lockout, now) == 0,
{
}

/// A lockout ends: once `lockout` has passed since the latest failure, the
/// IP is no longer locked out and its record is dropped by the check.
pub proof fn law_lockout_expires(
    m: Map<Seq<char>, Attempt>,
    ip: Seq<char>,
    max_attempts: u32,
    lockout: Duration,
    now: Instant,
)
    requires
        m.contains_key(ip),
        m[ip].count >= max_attempts,
        elapsed_nanos(m[ip].last_attempt, now) >= lockout.nanos,
    ensures
        !locked_spec(m, ip, max_attempts, lockout, now),
        after_lock_check(m, ip, max_attempts, lockout, now) == m.remove(ip),
{
}

/// Distinct IPs are independent: recording, resetting or checking one IP
/// leaves every other IP's record, and so its lockout, unchanged.
pub proof fn law_distinct_ips_independent(
    m: Map<Seq<char>, Attempt>,
    a: Seq<char>,
    b: Seq<char>,
    max_attempts: u32,
    lockout: Duration,
    now: Instant,
    t: Instant,
)
    requires
        a != b,
    ensures
        locked_spec(record_spec(m, a, t), b, max_attempts, lockout, now) == locked_spec(
            m,
            b,
            max_attempts,
            lockout,
            now,
        ),
        locked_spec(m.remove(a), b, max_attempts, lockout, now) == locked_spec(
            m,
            b,
            max_attempts,
            lockout,
            now,
        ),
        locked_spec(after_lock_check(m, a, max_attempts, lockout, t), b, max_attempts, lockout, now)
            == locked_spec(m, b, max_attempts, lockout, now),
        count_of(record_spec(m, a, t), b) == count_of(m, b),
{
}

/// The seconds remaining never exceed the lockout duration, and are zero
/// for an IP without a record.
pub proof fn law_remaining_secs_bounded(
    m: Map<Seq<char>, Attempt>,
    ip: Seq<char>,
    lockout: Duration,
    now: Instant,
)
    ensures
        0 <= remaining_secs_spec(m, ip, lockout, now) <= (lockout.nanos as int) / (NANOS_PER_SEC as int),
        !m.contains_key(ip) ==> remaining_secs_spec(m, ip, lockout, now) == 0,
{
    if m.contains_key(ip) && elapsed_nanos(m[ip].last_attempt, now) < lockout.nanos {
        let e = elapsed_nanos(m[ip].last_attempt, now) as int;
        let l = lockout.nanos as int;
        assert((l - e) / 1_000_000_000 <= l / 1_000_000_000) by (nonlinear_arith)
            requires
                0 <= e < l,
        ;
    }
}

} // verus!
