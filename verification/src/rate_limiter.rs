//! Admission control against a requests-per-minute budget.
//!
//! The limiter keeps the instants of the admissions of the trailing window.
//! It never sleeps and never reads a clock: [`RateLimiter::try_acquire`] is handed the
//! current time in milliseconds and answers with an [`Admission`]. A caller
//! that is delayed sleeps for the given time and asks again, holding the
//! limiter exclusively for the length of each call.

use vstd::prelude::*;

verus! {

/// Length of the rolling window, in milliseconds.
pub const WINDOW_MS: u64 = 60_000;

/// Answer of the limiter to one admission request.
#[derive(Debug, Clone, Copy, PartialEq, Eq, Structural)]
pub enum Admission {
    /// The request may leave now; its instant has been recorded.
    Granted,
    /// The request must wait for `wait_ms` milliseconds and ask again.
    Delayed { wait_ms: u64 },
}

/// Mathematical model of a limiter.
pub struct LimiterState {
    /// Largest number of admissions within one window.
    pub capacity: nat,
    /// Instants of the admissions that are still accounted for, oldest first.
    pub window: Seq<u64>,
    /// Latest instant the limiter has been shown.
    pub clock: u64,
    /// Instant before which the server asked that nothing be sent.
    pub blocked_until: u64,
}

/// The later of two instants.
pub open spec fn later(a: u64, b: u64) -> u64 {
    if a >= b {
        a
    } else {
        b
    }
}

/// `t` plus `d`, held at the largest representable instant.
pub open spec fn instant_after(t: u64, d: u64) -> u64 {
    if t + d > u64::MAX {
        u64::MAX
    } else {
        (t + d) as u64
    }
}

/// Whether an admission made at `t` still counts at the instant `now`: it
/// does for the length of the window, and no longer at `t + WINDOW_MS`.
pub open spec fn in_window(t: u64, now: u64) -> bool {
    now - t < WINDOW_MS
}

/// The admissions of `window` that still count at `now`, in their order.
pub open spec fn live_at(window: Seq<u64>, now: u64) -> Seq<u64> {
    window.filter(|t: u64| in_window(t, now))
}

/// Time until the oldest of `live` leaves the window, or zero while a slot is free.
pub open spec fn window_wait(live: Seq<u64>, capacity: nat, now: u64) -> int {
    if live.len() < capacity {
        0
    } else if live.len() == 0 {
        WINDOW_MS as int
    } else {
        WINDOW_MS - (now - live[0])
    }
}

/// Time until the cooldown the server asked for has passed.
pub open spec fn server_wait(blocked_until: u64, now: u64) -> int {
    if now < blocked_until {
        blocked_until - now
    } else {
        0
    }
}

impl LimiterState {
    /// A limiter that has admitted nothing yet.
    pub open spec fn fresh(capacity: nat) -> LimiterState {
        LimiterState { capacity, window: Seq::empty(), clock: 0, blocked_until: 0 }
    }

    /// The window is ordered, lies within the trailing window of the clock and
    /// never holds more than `capacity` admissions.
    pub open spec fn wf(self) -> bool {
        &&& self.window.len() <= self.capacity
        &&& forall|i: int, j: int|
            0 <= i <= j < self.window.len() ==> self.window[i] <= self.window[j]
        &&& forall|i: int|
            0 <= i < self.window.len() ==> self.window[i] <= self.clock && in_window(
                #[trigger] self.window[i],
                self.clock,
            )
    }

    /// The instant a request at `now` is evaluated at: time never runs backwards.
    pub open spec fn instant(self, now: u64) -> u64 {
        later(now, self.clock)
    }

    /// The delay a request at `now` meets: the larger of the local estimate and
    /// the server's cooldown. Zero means admission.
    pub open spec fn wait_at(self, now: u64) -> int {
        let t = self.instant(now);
        let local = window_wait(live_at(self.window, t), self.capacity, t);
        let server = server_wait(self.blocked_until, t);
        if local >= server {
            local
        } else {
            server
        }
    }

    /// What the limiter answers to a request at `now`.
    pub open spec fn admission_at(self, now: u64) -> Admission {
        if self.wait_at(now) == 0 {
            Admission::Granted
        } else {
            Admission::Delayed { wait_ms: self.wait_at(now) as u64 }
        }
    }

    /// The limiter after a request at `now`: expired admissions are dropped, and
    /// the instant is recorded if the request was admitted.
    pub open spec fn after_acquire(self, now: u64) -> LimiterState {
        let t = self.instant(now);
        let live = live_at(self.window, t);
        LimiterState {
            capacity: self.capacity,
            window: if self.wait_at(now) == 0 {
                live.push(t)
            } else {
                live
            },
            clock: t,
            blocked_until: self.blocked_until,
        }
    }

    /// The limiter after the server reported a cooldown of `retry_after_ms` at `now`.
    pub open spec fn after_throttle(self, now: u64, retry_after_ms: u64) -> LimiterState {
        LimiterState {
            blocked_until: later(
                self.blocked_until,
                instant_after(self.instant(now), retry_after_ms),
            ),
            ..self
        }
    }

    /// The limiter after `n` requests at the same instant `now`.
    pub open spec fn after_burst(self, now: u64, n: nat) -> LimiterState
        decreases n,
    {
        if n == 0 {
            self
        } else {
            self.after_burst(now, (n - 1) as nat).after_acquire(now)
        }
    }
}

/// In an ordered window the live admissions are what follows the expired ones.
pub proof fn lemma_live_is_suffix(window: Seq<u64>, now: u64, k: int)
    requires
        0 <= k <= window.len(),
        forall|i: int| 0 <= i < k ==> !in_window(window[i], now),
        forall|i: int| k <= i < window.len() ==> in_window(window[i], now),
    ensures
        live_at(window, now) == window.skip(k),
    decreases window.len(),
{
    reveal(Seq::filter);
    let pred = |t: u64| in_window(t, now);
    if window.len() > 0 {
        let front = window.drop_last();
        if k == window.len() {
            lemma_live_is_suffix(front, now, k - 1);
            assert(!pred(window.last()));
            assert(window.filter(pred) =~= window.skip(k));
        } else {
            lemma_live_is_suffix(front, now, k);
            assert(pred(window.last()));
            assert(front.skip(k).push(window.last()) =~= window.skip(k));
        }
    } else {
        assert(window.filter(pred) =~= window.skip(k));
    }
}

/// Splits an ordered window at the first admission that still counts at `now`.
pub proof fn lemma_expired_prefix(window: Seq<u64>, now: u64) -> (k: int)
    requires
        forall|i: int, j: int| 0 <= i <= j < window.len() ==> window[i] <= window[j],
    ensures
        0 <= k <= window.len(),
        forall|i: int| 0 <= i < k ==> !in_window(window[i], now),
        forall|i: int| k <= i < window.len() ==> in_window(window[i], now),
        live_at(window, now) == window.skip(k),
    decreases window.len(),
{
    let k = if window.len() == 0 {
        0
    } else if in_window(window.last(), now) {
        let front = window.drop_last();
        let k = lemma_expired_prefix(front, now);
        assert forall|i: int| 0 <= i < k implies !in_window(window[i], now) by {
            assert(front[i] == window[i]);
        }
        assert forall|i: int| k <= i < window.len() implies in_window(window[i], now) by {
            if i < front.len() {
                assert(front[i] == window[i]);
            }
        }
        k
    } else {
        assert forall|i: int| 0 <= i < window.len() implies !in_window(window[i], now) by {
            assert(window[i] <= window.last());
        }
        window.len() as int
    };
    lemma_live_is_suffix(window, now, k);
    k
}

/// A request never breaks the budget: it leaves a well-formed limiter, it admits
/// only while fewer than `capacity` admissions lie within the trailing window
/// and no cooldown is pending, and after it the admissions within the
/// trailing window are at most `capacity`.
pub proof fn lemma_acquire_keeps_budget(s: LimiterState, now: u64)
    requires
        s.wf(),
    ensures
        s.after_acquire(now).wf(),
        s.after_acquire(now).capacity == s.capacity,
        s.admission_at(now) == Admission::Granted <==> live_at(s.window, s.instant(now)).len()
            < s.capacity && s.instant(now) >= s.blocked_until,
        live_at(s.after_acquire(now).window, s.after_acquire(now).clock).len() <= s.capacity,
        s.admission_at(now) != Admission::Granted ==> 0 < s.wait_at(now) <= u64::MAX,
{
    lemma_expired_prefix(s.window, s.instant(now));
    let next = s.after_acquire(now);
    lemma_live_is_suffix(next.window, next.clock, 0);
}

/// No waiter starves: where a request is delayed and nobody else is admitted
/// in the meantime, the request that comes after exactly the wait it was
/// given is granted. A limiter with a budget of at least one is meant, and a
/// wait that ends before the largest representable instant.
pub proof fn lemma_wait_suffices(s: LimiterState, now: u64)
    requires
        s.wf(),
        s.capacity >= 1,
        s.wait_at(now) > 0,
        s.instant(now) + s.wait_at(now) <= u64::MAX,
    ensures
        s.after_acquire(now).admission_at((s.instant(now) + s.wait_at(now)) as u64)
            == Admission::Granted,
{
    let at = (s.instant(now) + s.wait_at(now)) as u64;
    lemma_acquire_keeps_budget(s, now);
    lemma_expired_prefix(s.after_acquire(now).window, at);
}

/// A burst at one instant: a limiter with an empty window and no pending
/// cooldown admits exactly `capacity` requests asked for at the instant `now`.
/// The next one is delayed by the whole window, stays delayed at every
/// instant before the window of the first admission has passed, for exactly
/// the time that is left of it, and is admitted once it has.
pub proof fn lemma_burst(s: LimiterState, now: u64, n: nat)
    requires
        s.wf(),
        s.window.len() == 0,
        s.clock <= now,
        s.blocked_until <= now,
        n <= s.capacity,
    ensures
        s.after_burst(now, n).wf(),
        s.after_burst(now, n).window == Seq::new(n, |i: int| now),
        s.after_burst(now, n).clock == if n == 0 {
            s.clock
        } else {
            now
        },
        s.after_burst(now, n).capacity == s.capacity,
        s.after_burst(now, n).blocked_until == s.blocked_until,
        n < s.capacity ==> s.after_burst(now, n).admission_at(now) == Admission::Granted,
        n == s.capacity ==> s.after_burst(now, n).admission_at(now) == (Admission::Delayed {
            wait_ms: WINDOW_MS,
        }),
        n == s.capacity ==> s.after_burst(now, n).after_acquire(now).window == s.after_burst(
            now,
            n,
        ).window,
        forall|at: u64|
            n == s.capacity && n > 0 && now <= at && at - now < WINDOW_MS ==> #[trigger] s.after_burst(
                now,
                n,
            ).admission_at(at) == (Admission::Delayed { wait_ms: (WINDOW_MS - (at - now)) as u64 }),
        forall|at: u64|
            n == s.capacity && n > 0 && at - now >= WINDOW_MS ==> #[trigger] s.after_burst(
                now,
                n,
            ).admission_at(at) == Admission::Granted,
    decreases n,
{
    let b = s.after_burst(now, n);
    if n == 0 {
        lemma_live_is_suffix(s.window, now, 0);
        assert(b.window =~= Seq::new(n, |i: int| now));
    } else {
        let prev = s.after_burst(now, (n - 1) as nat);
        lemma_burst(s, now, (n - 1) as nat);
        lemma_live_is_suffix(prev.window, now, 0);
        assert(b.window =~= Seq::new(n, |i: int| now));
    }
    lemma_live_is_suffix(b.window, now, 0);
    if n == s.capacity {
        if n > 0 {
            assert forall|at: u64| now <= at && at - now < WINDOW_MS implies #[trigger] b.admission_at(
                at,
            ) == (Admission::Delayed { wait_ms: (WINDOW_MS - (at - now)) as u64 }) by {
                lemma_live_is_suffix(b.window, at, 0);
            }
            assert forall|at: u64| at - now >= WINDOW_MS implies #[trigger] b.admission_at(at)
                == Admission::Granted by {
                lemma_live_is_suffix(b.window, at, b.window.len() as int);
            }
        }
    }
}

/// The rolling window of admissions and the budget it is held to.
#[derive(Debug, Clone)]
pub struct RateLimiter {
    capacity: u32,
    window: Vec<u64>,
    clock: u64,
    blocked_until: u64,
}

impl View for RateLimiter {
    type V = LimiterState;

    closed spec fn view(&self) -> LimiterState {
        LimiterState {
            capacity: self.capacity as nat,
            window: self.window@,
            clock: self.clock,
            blocked_until: self.blocked_until,
        }
    }
}

impl RateLimiter {
    /// Well-formedness: the model is well-formed.
    pub open spec fn wf(&self) -> bool {
        self@.wf()
    }

    /// A limiter that admits at most `max_requests_per_minute` requests per window.
    pub fn new(max_requests_per_minute: u32) -> (limiter: RateLimiter)
        ensures
            limiter.wf(),
            limiter@ == LimiterState::fresh(max_requests_per_minute as nat),
    {
        RateLimiter {
            capacity: max_requests_per_minute,
            window: Vec::new(),
            clock: 0,
            blocked_until: 0,
        }
    }

    /// The budget of the limiter.
    pub fn capacity(&self) -> (n: u32)
        ensures
            n == self@.capacity,
    {
        self.capacity
    }

    /// Number of admissions that are accounted for.
    pub fn in_flight(&self) -> (n: usize)
        ensures
            n == self@.window.len(),
    {
        self.window.len()
    }

    /// Asks for the admission of one request at the instant `now`.
    ///
    /// Admissions older than the window are dropped first. If a slot is free
    /// and no cooldown of the server is pending, `now` is recorded and the
    /// request is granted. Otherwise nothing is recorded and the answer gives
    /// the time after which asking again can succeed.
    pub fn try_acquire(&mut self, now: u64) -> (answer: Admission)
        requires
            old(self).wf(),
        ensures
            final(self).wf(),
            final(self)@ == old(self)@.after_acquire(now),
            answer == old(self)@.admission_at(now),
            answer == Admission::Granted ==> live_at(
                old(self)@.window,
                old(self)@.instant(now),
            ).len() < old(self)@.capacity,
    {
        let t: u64 = if now >= self.clock {
            now
        } else {
            self.clock
        };
        let mut k: usize = 0;
        while k < self.window.len() && t - self.window[k] >= WINDOW_MS
            invariant
                k <= self.window.len(),
                self.wf(),
                *self == *old(self),
                t == old(self)@.instant(now),
                forall|i: int| 0 <= i < k ==> !in_window(self.window@[i], t),
            decreases self.window.len() - k,
        {
            k = k + 1;
        }
        proof {
            assert forall|i: int| k <= i < self.window@.len() implies in_window(
                self.window@[i],
                t,
            ) by {
                assert(self.window@[k as int] <= self.window@[i]);
            }
            lemma_live_is_suffix(self.window@, t, k as int);
        }
        let live = self.window.split_off(k);
        self.window = live;
        self.clock = t;
        let local: u64 = if self.window.len() < self.capacity as usize {
            0
        } else if self.window.len() == 0 {
            WINDOW_MS
        } else {
            WINDOW_MS - (t - self.window[0])
        };
        let server: u64 = if t < self.blocked_until {
            self.blocked_until - t
        } else {
            0
        };
        let wait: u64 = if local >= server {
            local
        } else {
            server
        };
        if wait == 0 {
            self.window.push(t);
            Admission::Granted
        } else {
            Admission::Delayed { wait_ms: wait }
        }
    }

    /// Records that the server asked, at the instant `now`, for a cooldown of
    /// `retry_after_ms`. Later requests wait for the end of that cooldown or for
    /// a free slot, whichever comes later. A cooldown never shortens one that
    /// is already pending.
    pub fn note_server_throttle(&mut self, now: u64, retry_after_ms: u64)
        requires
            old(self).wf(),
        ensures
            final(self).wf(),
            final(self)@ == old(self)@.after_throttle(now, retry_after_ms),
    {
        let t: u64 = if now >= self.clock {
            now
        } else {
            self.clock
        };
        let until: u64 = t.saturating_add(retry_after_ms);
        if until > self.blocked_until {
            self.blocked_until = until;
        }
    }
}

} // verus!
