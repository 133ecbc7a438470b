//! Per-IP request-budget rate limiter.
//!
//! Distinct from the PIN-attempt lockout in `auth::attempts`: that one
//! throttles *failed* logins; this one throttles the overall request rate
//! per client IP with a fixed-window counter. Each IP gets `max_requests`
//! requests per window; a window starts at the IP's first request after the
//! previous window has run out.
//!
//! The limiter is in-memory and not distributed, suitable for a single
//! backend process. Clients are keyed by the text of their IP address (the
//! caller renders it, e.g. `IpAddr::to_string`).
//!
//! As in `auth::attempts`, `check_at` / `cleanup_at` take the current
//! instant and are specified exactly; `check` / `cleanup` read the clock.

use vstd::prelude::*;
use crate::clock::{elapsed_nanos, Clock, Duration, Instant};
use crate::table::KeyTable;

verus! {

/// Default request budget per IP per window.
pub const DEFAULT_MAX_REQUESTS: usize = 100;

/// Default window length, in seconds.
pub const DEFAULT_WINDOW_SECS: u64 = 60;

/// The current window of one IP: when it started and how many requests it
/// has admitted.
#[derive(Clone, Copy, Debug, PartialEq, Eq, Structural)]
pub struct WindowState {
    pub start: Instant,
    pub count: usize,
}

/// In-memory per-IP window counters.
pub struct RateLimiter {
    inner: KeyTable<WindowState>,
    max_requests: usize,
    window: Duration,
    clock: Clock,
}

impl View for RateLimiter {
    type V = Map<Seq<char>, WindowState>;

    closed spec fn view(&self) -> Map<Seq<char>, WindowState> {
        self.inner@
    }
}

/// The window of `ip` in force at `now`, before the request is counted: its
/// current window, or a fresh one when it has none or the window has run
/// out.
pub open spec fn window_at(
    m: Map<Seq<char>, WindowState>,
    ip: Seq<char>,
    window: Duration,
    now: Instant,
) -> WindowState {
    let s = if m.contains_key(ip) {
        m[ip]
    } else {
        WindowState { start: now, count: 0 }
    };
    if elapsed_nanos(s.start, now) >= window.nanos {
        WindowState { start: now, count: 0 }
    } else {
        s
    }
}

/// A request of `ip` at `now` is admitted: its window has budget left.
pub open spec fn admitted(
    m: Map<Seq<char>, WindowState>,
    ip: Seq<char>,
    max_requests: usize,
    window: Duration,
    now: Instant,
) -> bool {
    window_at(m, ip, window, now).count < max_requests
}

/// The counters after a request of `ip` at `now`.
pub open spec fn check_spec(
    m: Map<Seq<char>, WindowState>,
    ip: Seq<char>,
    max_requests: usize,
    window: Duration,
    now: Instant,
) -> Map<Seq<char>, WindowState> {
    let s = window_at(m, ip, window, now);
    if s.count < max_requests {
        m.insert(ip, WindowState { start: s.start, count: (s.count + 1) as usize })
    } else {
        m.insert(ip, s)
    }
}

/// A window that started less than `window` before `now`.
pub open spec fn is_fresh(s: WindowState, window: Duration, now: Instant) -> bool {
    elapsed_nanos(s.start, now) < window.nanos
}

/// The counters whose window is still running at `now`.
pub open spec fn cleaned(m: Map<Seq<char>, WindowState>, window: Duration, now: Instant) -> Map<
    Seq<char>,
    WindowState,
> {
    Map::new(|k: Seq<char>| m.contains_key(k) && is_fresh(m[k], window, now), |k: Seq<char>| m[k])
}

/// The decisions for requests of `ip` at each of `times`, in order, and the
/// counters afterwards.
pub open spec fn check_run(
    m: Map<Seq<char>, WindowState>,
    ip: Seq<char>,
    max_requests: usize,
    window: Duration,
    times: Seq<Instant>,
) -> (Map<Seq<char>, WindowState>, Seq<bool>)
    decreases times.len(),
{
    if times.len() == 0 {
        (m, Seq::empty())
    } else {
        let (m1, d1) = check_run(m, ip, max_requests, window, times.drop_last());
        (
            check_spec(m1, ip, max_requests, window, times.last()),
            d1.push(admitted(m1, ip, max_requests, window, times.last())),
        )
    }
}

impl RateLimiter {
    /// The counters are well-formed.
    pub closed spec fn wf(&self) -> bool {
        self.inner.wf()
    }

    /// Requests admitted per IP per window.
    pub closed spec fn budget(&self) -> usize {
        self.max_requests
    }

    /// The window length.
    pub closed spec fn window_len(&self) -> Duration {
        self.window
    }

    /// The latest instant the limiter's clock has reported.
    pub closed spec fn latest(&self) -> Instant {
        self.clock.latest()
    }

    /// Requests admitted per IP per window.
    pub fn max_requests(&self) -> (n: usize)
        ensures
            n == self.budget(),
    {
        self.max_requests
    }

    /// The window length.
    pub fn window(&self) -> (d: Duration)
        ensures
            d == self.window_len(),
    {
        self.window
    }

    /// A limiter with the default budget (100 requests) and window (60 s).
    pub fn new() -> (rl: RateLimiter)
        ensures
            rl.wf(),
            rl@ == Map::<Seq<char>, WindowState>::empty(),
            rl.budget() == DEFAULT_MAX_REQUESTS,
            rl.window_len().nanos == DEFAULT_WINDOW_SECS * 1_000_000_000,
            rl.latest().nanos == 0,
    {
        RateLimiter::with_limits(DEFAULT_MAX_REQUESTS, Duration::from_secs(DEFAULT_WINDOW_SECS))
    }

    /// A limiter with a custom budget and window.
    pub fn with_limits(max_requests: usize, window: Duration) -> (rl: RateLimiter)
        ensures
            rl.wf(),
            rl@ == Map::<Seq<char>, WindowState>::empty(),
            rl.budget() == max_requests,
            rl.window_len() == window,
            rl.latest().nanos == 0,
    {
        RateLimiter { inner: KeyTable::new(), max_requests, window, clock: Clock::start() }
    }

    /// The current instant on the limiter's clock: never earlier than its
    /// previous reading. The counters and limits are left as they are.
    pub fn now(&mut self) -> (t: Instant)
        requires
            old(self).wf(),
        ensures
            final(self).wf(),
            final(self)@ == old(self)@,
            final(self).budget() == old(self).budget(),
            final(self).window_len() == old(self).window_len(),
            t.nanos >= old(self).latest().nanos,
            final(self).latest() == t,
    {
        self.clock.now()
    }

    /// Record a request of `ip` at `now` and return whether it is allowed
    /// (under budget) or not (budget exhausted for this window).
    pub fn check_at(&mut self, ip: &str, now: Instant) -> (allowed: bool)
        requires
            old(self).wf(),
        ensures
            final(self).wf(),
            final(self).budget() == old(self).budget(),
            final(self).window_len() == old(self).window_len(),
            allowed == admitted(old(self)@, ip@, old(self).budget(), old(self).window_len(), now),
            final(self)@ == check_spec(
                old(self)@,
                ip@,
                old(self).budget(),
                old(self).window_len(),
                now,
            ),
            final(self).latest() == old(self).latest(),
    {
        let mut state = match self.inner.get(ip) {
            Some(s) => s,
            None => WindowState { start: now, count: 0 },
        };
        if now.duration_since(state.start).nanos >= self.window.nanos {
            state = WindowState { start: now, count: 0 };
        }
        if state.count >= self.max_requests {
            self.inner.insert(ip, state);
            false
        } else {
            state = WindowState { start: state.start, count: state.count + 1 };
            self.inner.insert(ip, state);
            true
        }
    }

    /// Record a request of `ip` now (reading the limiter's clock once) and
    /// return whether it is allowed.
    pub fn check(&mut self, ip: &str) -> (allowed: bool)
        requires
            old(self).wf(),
        ensures
            final(self).wf(),
            final(self).budget() == old(self).budget(),
            final(self).window_len() == old(self).window_len(),
            exists|now: Instant|
                now.nanos >= old(self).latest().nanos && final(self).latest() == now && allowed
                    == admitted(old(self)@, ip@, old(self).budget(), old(self).window_len(), now)
                    && final(self)@ == check_spec(
                    old(self)@,
                    ip@,
                    old(self).budget(),
                    old(self).window_len(),
                    now,
                ),
    {
        let now = self.now();
        self.check_at(ip, now)
    }

    /// Drop the IPs whose window has run out at `now`, keeping the others.
    pub fn cleanup_at(&mut self, now: Instant)
        requires
            old(self).wf(),
        ensures
            final(self).wf(),
            final(self).budget() == old(self).budget(),
            final(self).window_len() == old(self).window_len(),
            final(self)@ == cleaned(old(self)@, old(self).window_len(), now),
            final(self).latest() == old(self).latest(),
    {
        let ghost m = self.inner@;
        proof {
            self.inner.lemma_entries();
        }
        let window = self.window;
        let mut kept: KeyTable<WindowState> = KeyTable::new();
        let n = self.inner.len();
        let mut i: usize = 0;
        while i < n
            invariant
                self.inner.wf(),
                self.inner@ == m,
                window == self.window,
                n == self.inner.len_spec(),
                i <= n,
                kept.wf(),
                forall|j: int|
                    0 <= j < n ==> {
                        &&& m.contains_key(#[trigger] self.inner.key_at_spec(j))
                        &&& m[self.inner.key_at_spec(j)] == self.inner.value_at_spec(j)
                    },
                forall|a: int, b: int|
                    0 <= a < b < n ==> self.inner.key_at_spec(a) != self.inner.key_at_spec(b),
                forall|k: Seq<char>|
                    #[trigger] kept@.contains_key(k) ==> {
                        &&& m.contains_key(k)
                        &&& is_fresh(m[k], window, now)
                        &&& kept@[k] == m[k]
                    },
                forall|j: int|
                    i <= j < n ==> !kept@.contains_key(#[trigger] self.inner.key_at_spec(j)),
                forall|j: int|
                    0 <= j < i && is_fresh(self.inner.value_at_spec(j), window, now)
                        ==> kept@.contains_key(#[trigger] self.inner.key_at_spec(j)),
            decreases n - i,
        {
            let k = self.inner.key_at(i);
            let s = self.inner.value_at(i);
            if now.duration_since(s.start).nanos < window.nanos {
                kept.insert(k, s);
                proof {
                    assert(m.contains_key(self.inner.key_at_spec(i as int)));
                    assert(m[k@] == s);
                    assert(is_fresh(s, window, now));
                    assert(kept@.contains_key(k@));
                    assert(kept@[k@] == s);
                }
            }
            i = i + 1;
        }
        proof {
            assert forall|k: Seq<char>| #[trigger] kept@.contains_key(k) == cleaned(
                m,
                self.window,
                now,
            ).contains_key(k) by {
                if m.contains_key(k) && is_fresh(m[k], self.window, now) {
                    let j = choose|j: int| 0 <= j < n && #[trigger] self.inner.key_at_spec(j) == k;
                    assert(self.inner.key_at_spec(j) == k);
                }
            }
            assert(kept@ =~= cleaned(m, self.window, now));
        }
        self.inner = kept;
    }

    /// Drop the IPs whose window has run out now (reading the limiter's clock
    /// once). Call periodically from a background task to bound memory.
    pub fn cleanup(&mut self)
        requires
            old(self).wf(),
        ensures
            final(self).wf(),
            final(self).budget() == old(self).budget(),
            final(self).window_len() == old(self).window_len(),
            exists|now: Instant|
                now.nanos >= old(self).latest().nanos && final(self).latest() == now && final(self)@
                    == cleaned(old(self)@, old(self).window_len(), now),
    {
        let now = self.now();
        self.cleanup_at(now);
    }

    /// Number of distinct IPs currently tracked (useful for `/health`
    /// telemetry).
    pub fn tracked_ips(&self) -> (n: usize)
        requires
            self.wf(),
        ensures
            n == self@.dom().len(),
    {
        self.inner.len()
    }

    /// The window counter of `ip`, if it is tracked.
    pub fn window_of(&self, ip: &str) -> (r: Option<WindowState>)
        requires
            self.wf(),
        ensures
            r == if self@.contains_key(ip@) {
                Some(self@[ip@])
            } else {
                None
            },
    {
        self.inner.get(ip)
    }
}

impl Default for RateLimiter {
    fn default() -> (rl: RateLimiter)
        ensures
            rl.wf(),
            rl@ == Map::<Seq<char>, WindowState>::empty(),
            rl.budget() == DEFAULT_MAX_REQUESTS,
            rl.window_len().nanos == DEFAULT_WINDOW_SECS * 1_000_000_000,
            rl.latest().nanos == 0,
    {
        RateLimiter::new()
    }
}

/// Within one window, an IP's first `max_requests` requests are allowed
/// and every later one is refused: for requests at `times`, all less than
/// `window` after the first, from an IP with no counter.
pub proof fn law_budget_within_window(
    m: Map<Seq<char>, WindowState>,
    ip: Seq<char>,
    max_requests: usize,
    window: Duration,
    times: Seq<Instant>,
)
    requires
        !m.contains_key(ip),
        window.nanos > 0,
        forall|i: int, j: int| 0 <= i <= j < times.len() ==> times[i].nanos <= times[j].nanos,
        forall|i: int|
            0 <= i < times.len() ==> elapsed_nanos(times[0], #[trigger] times[i]) < window.nanos,
    ensures
        check_run(m, ip, max_requests, window, times).1.len() == times.len(),
        forall|i: int|
            0 <= i < times.len() ==> #[trigger] check_run(m, ip, max_requests, window, times).1[i]
                == (i < max_requests),
    decreases times.len(),
{
    lemma_run_state(m, ip, max_requests, window, times);
    if times.len() > 0 {
        let prefix = times.drop_last();
        assert forall|i: int| 0 <= i < prefix.len() implies elapsed_nanos(
            prefix[0],
            #[trigger] prefix[i],
        ) < window.nanos by {
            assert(prefix[i] == times[i]);
        }
        law_budget_within_window(m, ip, max_requests, window, prefix);
        lemma_run_state(m, ip, max_requests, window, prefix);
        let (m1, d1) = check_run(m, ip, max_requests, window, prefix);
        let last = times.last();
        assert(elapsed_nanos(times[0], times[times.len() - 1]) < window.nanos);
        if prefix.len() > 0 {
            assert(prefix[0] == times[0]);
        }
        assert(admitted(m1, ip, max_requests, window, last) == (prefix.len() < max_requests));
        assert forall|i: int| 0 <= i < times.len() implies #[trigger] check_run(
            m,
            ip,
            max_requests,
            window,
            times,
        ).1[i] == (i < max_requests) by {
            if i < prefix.len() {
                assert(check_run(m, ip, max_requests, window, times).1[i] == d1[i]);
            }
        }
    }
}

/// The counter of `ip` after requests at `times` within one window: it
/// started at the first request and has admitted `min(n, max_requests)`.
pub proof fn lemma_run_state(
    m: Map<Seq<char>, WindowState>,
    ip: Seq<char>,
    max_requests: usize,
    window: Duration,
    times: Seq<Instant>,
)
    requires
        !m.contains_key(ip),
        window.nanos > 0,
        forall|i: int, j: int| 0 <= i <= j < times.len() ==> times[i].nanos <= times[j].nanos,
        forall|i: int|
            0 <= i < times.len() ==> elapsed_nanos(times[0], #[trigger] times[i]) < window.nanos,
    ensures
        times.len() > 0 ==> check_run(m, ip, max_requests, window, times).0.contains_key(ip),
        times.len() > 0 ==> check_run(m, ip, max_requests, window, times).0[ip] == (WindowState {
            start: times[0],
            count: if times.len() < max_requests {
                times.len() as usize
            } else {
                max_requests
            },
        }),
        times.len() == 0 ==> !check_run(m, ip, max_requests, window, times).0.contains_key(ip),
    decreases times.len(),
{
    if times.len() > 0 {
        let prefix = times.drop_last();
        assert forall|i: int| 0 <= i < prefix.len() implies elapsed_nanos(
            prefix[0],
            #[trigger] prefix[i],
        ) < window.nanos by {
            assert(prefix[i] == times[i]);
        }
        lemma_run_state(m, ip, max_requests, window, prefix);
        let last = times.last();
        assert(elapsed_nanos(times[0], times[times.len() - 1]) < window.nanos);
        assert(times[0].nanos <= last.nanos);
    }
}

/// Budgets are per IP: a request of one IP leaves every other IP's counter
/// unchanged.
pub proof fn law_budget_is_per_ip(
    m: Map<Seq<char>, WindowState>,
    a: Seq<char>,
    b: Seq<char>,
    max_requests: usize,
    window: Duration,
    now: Instant,
    t: Instant,
)
    requires
        a != b,
    ensures
        check_spec(m, a, max_requests, window, t).contains_key(b) == m.contains_key(b),
        check_spec(m, a, max_requests, window, t)[b] == m[b],
        admitted(check_spec(m, a, max_requests, window, t), b, max_requests, window, now)
            == admitted(m, b, max_requests, window, now),
{
}

/// An expired window replenishes the budget: once `window` has passed since
/// an IP's window started, its next request is allowed (for any positive
/// budget).
pub proof fn law_expired_window_replenishes(
    m: Map<Seq<char>, WindowState>,
    ip: Seq<char>,
    max_requests: usize,
    window: Duration,
    now: Instant,
)
    requires
        m.contains_key(ip),
        elapsed_nanos(m[ip].start, now) >= window.nanos,
        max_requests > 0,
    ensures
        admitted(m, ip, max_requests, window, now),
        check_spec(m, ip, max_requests, window, now)[ip] == (WindowState { start: now, count: 1 }),
{
}

/// Cleanup drops exactly the idle IPs: afterwards every tracked IP's window
/// is still running, and every IP whose window was running is still
/// tracked with its counter unchanged.
pub proof fn law_cleanup_keeps_running_windows(
    m: Map<Seq<char>, WindowState>,
    window: Duration,
    now: Instant,
    ip: Seq<char>,
)
    ensures
        cleaned(m, window, now).contains_key(ip) ==> is_fresh(
            cleaned(m, window, now)[ip],
            window,
            now,
        ),
        m.contains_key(ip) && is_fresh(m[ip], window, now) ==> cleaned(
            m,
            window,
            now,
        ).contains_key(ip) && cleaned(m, window, now)[ip] == m[ip],
        m.contains_key(ip) && !is_fresh(m[ip], window, now) ==> !cleaned(
            m,
            window,
            now,
        ).contains_key(ip),
{
}

} // verus!
