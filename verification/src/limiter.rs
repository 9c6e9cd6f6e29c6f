//! The per-connection token bucket.
//!
//! A bucket holds at most `CAPACITY` tokens and gains `REFILL_TOKENS` for
//! every whole `REFILL_INTERVAL_MS` that has passed since it was last
//! refilled. It is passive: time only moves when a caller reports it, in
//! milliseconds on a clock of the caller's choosing. A reading that lies
//! before the last refill counts as no time passed.

use vstd::prelude::*;

verus! {

/// Most tokens a bucket can hold; also what a new bucket starts with.
pub const CAPACITY: u32 = 20;

/// Tokens gained per refill interval.
pub const REFILL_TOKENS: u32 = 5;

/// Length of one refill interval, in milliseconds.
pub const REFILL_INTERVAL_MS: u64 = 200;

/// The mathematical state of a token bucket.
pub struct Bucket {
    /// Tokens available right now.
    pub tokens: nat,
    /// The instant up to which elapsed time has been turned into tokens.
    pub last_refill_ms: nat,
}

impl Bucket {
    /// A full bucket whose clock starts at `now`.
    pub open spec fn full(now: nat) -> Bucket {
        Bucket { tokens: CAPACITY as nat, last_refill_ms: now }
    }

    /// No bucket ever holds more than `CAPACITY` tokens.
    pub open spec fn wf(self) -> bool {
        self.tokens <= CAPACITY
    }

    /// Whole refill intervals between the last refill and `now`.
    pub open spec fn intervals(self, now: nat) -> nat {
        if now >= self.last_refill_ms {
            (now - self.last_refill_ms) as nat / (REFILL_INTERVAL_MS as nat)
        } else {
            0
        }
    }

    /// The bucket once the time elapsed up to `now` has been credited. The
    /// remainder of an unfinished interval is kept for the next refill.
    pub open spec fn refilled(self, now: nat) -> Bucket {
        let n = self.intervals(now);
        let gained = self.tokens + REFILL_TOKENS as nat * n;
        Bucket {
            tokens: if gained <= CAPACITY { gained } else { CAPACITY as nat },
            last_refill_ms: self.last_refill_ms + REFILL_INTERVAL_MS as nat * n,
        }
    }

    /// Whether a request made at `now` is admitted.
    pub open spec fn admits(self, now: nat) -> bool {
        self.refilled(now).tokens > 0
    }

    /// The bucket after a request made at `now`: refilled, and one token
    /// poorer if the request was admitted.
    pub open spec fn after(self, now: nat) -> Bucket {
        let r = self.refilled(now);
        if r.tokens > 0 {
            Bucket { tokens: (r.tokens - 1) as nat, last_refill_ms: r.last_refill_ms }
        } else {
            r
        }
    }

    /// The bucket after one request at each of `times`, in order.
    pub open spec fn after_all(self, times: Seq<nat>) -> Bucket
        decreases times.len(),
    {
        if times.len() == 0 {
            self
        } else {
            self.after(times.first()).after_all(times.drop_first())
        }
    }

    /// How many of the requests made at `times`, in order, are admitted.
    pub open spec fn admitted(self, times: Seq<nat>) -> nat
        decreases times.len(),
    {
        if times.len() == 0 {
            0
        } else {
            let rest = self.after(times.first()).admitted(times.drop_first());
            if self.admits(times.first()) {
                rest + 1
            } else {
                rest
            }
        }
    }
}

/// A token bucket bound to one connection.
#[derive(Clone, Copy, Debug, PartialEq, Eq)]
pub struct RateLimiter {
    tokens: u32,
    last_refill_ms: u64,
}

impl View for RateLimiter {
    type V = Bucket;

    closed spec fn view(&self) -> Bucket {
        Bucket { tokens: self.tokens as nat, last_refill_ms: self.last_refill_ms as nat }
    }
}

impl RateLimiter {
    #[verifier::type_invariant]
    spec fn inv(self) -> bool {
        self.tokens <= CAPACITY
    }

    /// A full bucket whose clock starts at `now_ms`.
    pub fn new(now_ms: u64) -> (limiter: RateLimiter)
        ensures
            limiter@ == Bucket::full(now_ms as nat),
    {
        RateLimiter { tokens: CAPACITY, last_refill_ms: now_ms }
    }

    /// Tokens available without any further refill.
    pub fn tokens(&self) -> (n: u32)
        ensures
            n == self@.tokens,
            self@.wf(),
    {
        proof {
            use_type_invariant(self);
        }
        self.tokens
    }

    /// The instant up to which elapsed time has been credited.
    pub fn last_refill_ms(&self) -> (t: u64)
        ensures
            t == self@.last_refill_ms,
    {
        self.last_refill_ms
    }

    /// Credits the time elapsed up to `now_ms`, then takes one token if there
    /// is one. Returns whether the request is admitted. A rejected request
    /// leaves the bucket as it was.
    pub fn try_consume(&mut self, now_ms: u64) -> (admitted: bool)
        ensures
            admitted == old(self)@.admits(now_ms as nat),
            final(self)@ == old(self)@.after(now_ms as nat),
            !admitted ==> final(self)@ == old(self)@,
            final(self)@.wf(),
    {
        proof {
            use_type_invariant(&*self);
        }
        let elapsed: u64 = if now_ms >= self.last_refill_ms {
            now_ms - self.last_refill_ms
        } else {
            0
        };
        let intervals: u64 = elapsed / REFILL_INTERVAL_MS;
        assert(intervals == old(self)@.intervals(now_ms as nat));
        assert(200 * intervals <= elapsed);
        let gained: u64 = self.tokens as u64 + 5 * intervals;
        let tokens: u32 = if gained <= CAPACITY as u64 {
            gained as u32
        } else {
            CAPACITY
        };
        let last: u64 = self.last_refill_ms + 200 * intervals;
        if tokens > 0 {
            self.tokens = tokens - 1;
            self.last_refill_ms = last;
            true
        } else {
            assert(intervals == 0);
            false
        }
    }
}

/// The smaller of two counts.
pub open spec fn at_most(a: nat, b: nat) -> nat {
    if a <= b {
        a
    } else {
        b
    }
}

/// Whatever the times of the requests, a bucket admits at least as many of
/// them as it holds tokens, and it stays within its capacity.
pub proof fn law_tokens_are_honoured(bucket: Bucket, times: Seq<nat>)
    requires
        bucket.wf(),
    ensures
        bucket.admitted(times) >= at_most(times.len(), bucket.tokens),
        bucket.admitted(times) <= times.len(),
        bucket.after_all(times).wf(),
    decreases times.len(),
{
    if times.len() > 0 {
        law_tokens_are_honoured(bucket.after(times.first()), times.drop_first());
    }
}

/// While no refill interval has completed, a bucket admits requests until
/// its tokens run out and rejects every one after that: of `n` requests it
/// admits `min(n, tokens)`, and its refill instant does not move.
pub proof fn law_burst(bucket: Bucket, times: Seq<nat>)
    requires
        bucket.wf(),
        forall|i: int|
            0 <= i < times.len() ==> #[trigger] times[i] < bucket.last_refill_ms
                + REFILL_INTERVAL_MS,
    ensures
        bucket.admitted(times) == at_most(times.len(), bucket.tokens),
        bucket.after_all(times) == (Bucket {
            tokens: (bucket.tokens - at_most(times.len(), bucket.tokens)) as nat,
            last_refill_ms: bucket.last_refill_ms,
        }),
    decreases times.len(),
{
    if times.len() > 0 {
        let t = times.first();
        assert(t == times[0]);
        assert(bucket.intervals(t) == 0);
        assert(bucket.refilled(t) == bucket);
        let rest = times.drop_first();
        assert forall|i: int| 0 <= i < rest.len() implies #[trigger] rest[i]
            < bucket.after(t).last_refill_ms + REFILL_INTERVAL_MS by {
            assert(rest[i] == times[i + 1]);
        }
        law_burst(bucket.after(t), rest);
    }
}

/// Once a full refill interval has passed since the last refill, at least
/// `REFILL_TOKENS` further requests are admitted, however empty the bucket
/// was and whenever the requests after the first are made.
pub proof fn law_refill_after_wait(bucket: Bucket, times: Seq<nat>)
    requires
        bucket.wf(),
        times.len() > 0,
        times[0] >= bucket.last_refill_ms + REFILL_INTERVAL_MS,
    ensures
        bucket.admitted(times) >= at_most(times.len(), REFILL_TOKENS as nat),
{
    let t = times.first();
    assert(bucket.intervals(t) >= 1) by {
        assert((t - bucket.last_refill_ms) >= 200);
    }
    assert(bucket.refilled(t).tokens >= REFILL_TOKENS);
    law_tokens_are_honoured(bucket.after(t), times.drop_first());
}

/// Whether a clock never ran backwards: the readings do not decrease, and
/// none lies before `from`.
pub open spec fn in_order_from(from: nat, times: Seq<nat>) -> bool {
    &&& forall|i: int| 0 <= i < times.len() ==> from <= #[trigger] times[i]
    &&& forall|i: int, j: int| 0 <= i <= j < times.len() ==> times[i] <= times[j]
}

/// On a clock that never runs backwards the refill instant is never ahead
/// of the latest request.
pub proof fn lemma_refill_trails_clock(bucket: Bucket, times: Seq<nat>)
    requires
        times.len() > 0,
        in_order_from(bucket.last_refill_ms, times),
    ensures
        bucket.after_all(times).last_refill_ms <= times.last(),
    decreases times.len(),
{
    let t = times.first();
    let rest = times.drop_first();
    assert(t == times[0]);
    let next = bucket.after(t);
    assert(next.last_refill_ms <= t) by {
        let n = bucket.intervals(t);
        assert(200 * n <= t - bucket.last_refill_ms);
    }
    if rest.len() > 0 {
        assert forall|i: int| 0 <= i < rest.len() implies next.last_refill_ms
            <= #[trigger] rest[i] by {
            assert(rest[i] == times[i + 1]);
            assert(times[0] <= times[i + 1]);
        }
        assert forall|i: int, j: int| 0 <= i <= j < rest.len() implies rest[i] <= rest[j] by {
            assert(rest[i] == times[i + 1] && rest[j] == times[j + 1]);
        }
        lemma_refill_trails_clock(next, rest);
        assert(rest.last() == times.last());
    } else {
        assert(times.last() == t);
        assert(next.after_all(rest) == next);
    }
}

/// On a clock that never runs backwards, a pause of one refill interval
/// after the latest request is enough: of the requests that follow it, at
/// least `REFILL_TOKENS` are admitted, however empty the bucket was left.
pub proof fn law_wait_after_last_request(bucket: Bucket, seen: Seq<nat>, later: Seq<nat>)
    requires
        bucket.wf(),
        seen.len() > 0,
        in_order_from(bucket.last_refill_ms, seen),
        later.len() > 0,
        later[0] >= seen.last() + REFILL_INTERVAL_MS,
    ensures
        bucket.after_all(seen).admitted(later) >= at_most(later.len(), REFILL_TOKENS as nat),
{
    law_tokens_are_honoured(bucket, seen);
    lemma_refill_trails_clock(bucket, seen);
    law_refill_after_wait(bucket.after_all(seen), later);
}

/// A new bucket hit by a burst of 25 requests, all before its first refill
/// interval is over, admits exactly `CAPACITY` of them and rejects the other
/// five; after a pause of one interval, at least `REFILL_TOKENS` of the
/// requests that follow are admitted. The clock is taken never to run
/// backwards.
pub proof fn law_burst_then_wait(start: nat, burst: Seq<nat>, later: Seq<nat>)
    requires
        burst.len() == 25,
        in_order_from(start, burst),
        burst.last() < start + REFILL_INTERVAL_MS,
        later.len() >= REFILL_TOKENS,
        later[0] >= burst.last() + REFILL_INTERVAL_MS,
    ensures
        Bucket::full(start).admitted(burst) == CAPACITY,
        burst.len() - Bucket::full(start).admitted(burst) == 5,
        Bucket::full(start).after_all(burst).tokens == 0,
        Bucket::full(start).after_all(burst).admitted(later) >= REFILL_TOKENS,
{
    let fresh = Bucket::full(start);
    assert forall|i: int| 0 <= i < burst.len() implies #[trigger] burst[i] < fresh.last_refill_ms
        + REFILL_INTERVAL_MS by {
        assert(burst[i] <= burst[burst.len() - 1]);
    }
    law_burst(fresh, burst);
    law_wait_after_last_request(fresh, burst, later);
}

} // verus!
