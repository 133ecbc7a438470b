//! Time as plain values: a `Duration` is a count of nanoseconds and an
//! `Instant` is the nanoseconds elapsed since a `Clock` was started.
//! The lockout and rate-limit logic is stated over these values; a `Clock`
//! reads the monotonic system clock to produce them.

use vstd::prelude::*;

verus! {

#[verifier::external_type_specification]
#[verifier::external_body]
pub struct ExStdInstant(std::time::Instant);

/// Nanoseconds in one second.
pub const NANOS_PER_SEC: u128 = 1_000_000_000;

/// A span of time, in nanoseconds.
#[derive(Clone, Copy, Debug, PartialEq, Eq, Structural)]
pub struct Duration {
    pub nanos: u128,
}

/// A point in time: nanoseconds since the clock it was read from started.
#[derive(Clone, Copy, Debug, PartialEq, Eq, Structural)]
pub struct Instant {
    pub nanos: u64,
}

/// The time from `earlier` to `later`, zero when `later` is not after `earlier`.
pub open spec fn elapsed_nanos(earlier: Instant, later: Instant) -> nat {
    if later.nanos >= earlier.nanos {
        (later.nanos - earlier.nanos) as nat
    } else {
        0
    }
}

impl Duration {
    /// `secs` seconds.
    pub fn from_secs(secs: u64) -> (d: Duration)
        ensures
            d.nanos == secs * NANOS_PER_SEC,
    {
        Duration { nanos: (secs as u128) * NANOS_PER_SEC }
    }

    /// `millis` milliseconds.
    pub fn from_millis(millis: u64) -> (d: Duration)
        ensures
            d.nanos == millis * 1_000_000,
    {
        Duration { nanos: (millis as u128) * 1_000_000 }
    }

    /// `nanos` nanoseconds.
    pub fn from_nanos(nanos: u128) -> (d: Duration)
        ensures
            d.nanos == nanos,
    {
        Duration { nanos }
    }

    /// Whole seconds in the span (rounded down), saturating at `u64::MAX`.
    pub fn as_secs(&self) -> (s: u64)
        ensures
            s == if self.nanos / NANOS_PER_SEC > u64::MAX {
                u64::MAX as int
            } else {
                (self.nanos / NANOS_PER_SEC) as int
            },
    {
        let s = self.nanos / NANOS_PER_SEC;
        if s > u64::MAX as u128 {
            u64::MAX
        } else {
            s as u64
        }
    }

    /// The span in nanoseconds.
    pub fn as_nanos(&self) -> (n: u128)
        ensures
            n == self.nanos,
    {
        self.nanos
    }
}

impl Instant {
    /// The instant `nanos` nanoseconds after the clock started.
    pub fn from_nanos(nanos: u64) -> (t: Instant)
        ensures
            t.nanos == nanos,
    {
        Instant { nanos }
    }

    /// The instant `nanos` nanoseconds after the clock started, saturating
    /// at `u64::MAX` nanoseconds (about 584 years).
    pub fn from_elapsed_nanos(nanos: u128) -> (t: Instant)
        ensures
            t.nanos == if nanos > u64::MAX {
                u64::MAX as int
            } else {
                nanos as int
            },
    {
        if nanos > u64::MAX as u128 {
            Instant { nanos: u64::MAX }
        } else {
            Instant { nanos: nanos as u64 }
        }
    }

    /// The time from `earlier` to `self`, zero when `self` is not after it.
    pub fn duration_since(&self, earlier: Instant) -> (d: Duration)
        ensures
            d.nanos == elapsed_nanos(earlier, *self),
    {
        if self.nanos >= earlier.nanos {
            Duration { nanos: (self.nanos - earlier.nanos) as u128 }
        } else {
            Duration { nanos: 0 }
        }
    }
}

/// Reads the monotonic system clock (`std::time::Instant::now`).
/// Trusted for nothing: the value depends on when it is called.
#[verifier::external_body]
fn system_now() -> std::time::Instant {
    std::time::Instant::now()
}

/// Nanoseconds elapsed since `origin` (`Instant::elapsed`, in nanoseconds).
/// Trusted for nothing: the value depends on when it is called.
#[verifier::external_body]
fn nanos_since(origin: &std::time::Instant) -> u128 {
    origin.elapsed().as_nanos()
}

/// A monotonic clock that reports `Instant`s as nanoseconds since it was
/// started. It remembers its latest reading, and no reading is earlier than
/// the one before.
pub struct Clock {
    origin: std::time::Instant,
    last: Instant,
}

impl Clock {
    /// The latest instant this clock has reported (zero before the first
    /// reading).
    pub closed spec fn latest(&self) -> Instant {
        self.last
    }

    /// A clock started now.
    pub fn start() -> (c: Clock)
        ensures
            c.latest().nanos == 0,
    {
        Clock { origin: system_now(), last: Instant { nanos: 0 } }
    }

    /// The current instant on this clock (saturating at `u64::MAX`
    /// nanoseconds, about 584 years). It is never earlier than the previous
    /// reading: the system clock is monotonic, and should a reading ever
    /// come back earlier, the previous one is repeated.
    pub fn now(&mut self) -> (t: Instant)
        ensures
            t.nanos >= old(self).latest().nanos,
            final(self).latest() == t,
    {
        let read = Instant::from_elapsed_nanos(nanos_since(&self.origin));
        let t = if read.nanos < self.last.nanos {
            self.last
        } else {
            read
        };
        self.last = t;
        t
    }
}

} // verus!
