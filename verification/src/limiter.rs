//! Token-bucket rate limiting: the admission quota applied to a request
//! before its handler may run.
//!
//! A bucket built from a `ConfigLimit { rate, burst }` starts full with
//! `burst` tokens and replenishes `rate` tokens per second; every admitted
//! request consumes one token. Time is a monotonic nanosecond reading taken
//! by the caller.

use vstd::arithmetic::div_mod::{
    lemma_div_by_self,
    lemma_div_is_ordered,
    lemma_div_multiples_vanish,
    lemma_div_of0,
    lemma_fundamental_div_mod,
    lemma_mod_bound,
};
use vstd::prelude::*;

verus! {

pub const NANOS_PER_SEC: u64 = 1_000_000_000;

/// Per-method admission policy: a token-bucket rate and burst capacity, or
/// no quota at all.
#[derive(Clone, Copy)]
pub enum ConfigLimit {
    /// No quota: every request is admitted.
    Unlimited,
    /// At most `burst` requests at once, replenished at `rate` per second.
    Limited { rate: u64, burst: u64 },
}

impl Default for ConfigLimit {
    /// A method with no configured limit is unrestricted.
    fn default() -> (r: Self)
        ensures
            r is Unlimited,
    {
        ConfigLimit::Unlimited
    }
}

/// One token-bucket limiter.
#[derive(Clone, Copy)]
pub struct TokenBucket {
    /// Tokens replenished per second.
    pub rate: u64,
    /// The bucket's capacity: the burst the quota allows.
    pub burst: u64,
    /// Tokens available now.
    pub available: u64,
    /// The instant, in nanoseconds, up to which replenishment has been
    /// accounted.
    pub last_refill_ns: u64,
}

impl TokenBucket {
    /// The bucket never holds more than its capacity.
    pub open spec fn wf(self) -> bool {
        self.available <= self.burst
    }

    /// The nanoseconds of replenishment not yet accounted at `now_ns`; a
    /// clock reading from before the last accounting contributes nothing.
    pub open spec fn spec_elapsed(self, now_ns: u64) -> int {
        if now_ns >= self.last_refill_ns {
            now_ns - self.last_refill_ns
        } else {
            0
        }
    }

    /// The whole tokens earned since the last accounting.
    pub open spec fn spec_gained(self, now_ns: u64) -> int {
        self.spec_elapsed(now_ns) * self.rate / (NANOS_PER_SEC as int)
    }

    /// The bucket after crediting the tokens earned by `now_ns`: fills to
    /// capacity at most. Below capacity, the accounting instant advances by
    /// exactly the time the credited tokens took to earn, so fractional
    /// progress toward the next token stays banked; once the bucket is full
    /// there is nothing left to bank and accounting restarts at `now_ns`.
    pub open spec fn spec_refill(self, now_ns: u64) -> TokenBucket {
        let gained = self.spec_gained(now_ns);
        if gained >= self.burst - self.available {
            TokenBucket {
                rate: self.rate,
                burst: self.burst,
                available: self.burst,
                last_refill_ns: if now_ns >= self.last_refill_ns {
                    now_ns
                } else {
                    self.last_refill_ns
                },
            }
        } else if gained > 0 {
            TokenBucket {
                rate: self.rate,
                burst: self.burst,
                available: (self.available + gained) as u64,
                last_refill_ns: (self.last_refill_ns + gained * (NANOS_PER_SEC as int) / (
                self.rate as int)) as u64,
            }
        } else {
            self
        }
    }

    /// The bucket and grant decision after one acquisition attempt at
    /// `now_ns`: refill, then consume one token if any is available.
    pub open spec fn spec_try_acquire(self, now_ns: u64) -> (TokenBucket, bool) {
        let refilled = self.spec_refill(now_ns);
        if refilled.available > 0 {
            (
                TokenBucket {
                    rate: refilled.rate,
                    burst: refilled.burst,
                    available: (refilled.available - 1) as u64,
                    last_refill_ns: refilled.last_refill_ns,
                },
                true,
            )
        } else {
            (refilled, false)
        }
    }

    /// The bucket a `ConfigLimit { rate, burst }` builds at `now_ns`: full.
    pub open spec fn spec_new(rate: u64, burst: u64, now_ns: u64) -> TokenBucket {
        TokenBucket { rate, burst, available: burst, last_refill_ns: now_ns }
    }

    /// Builds a full bucket for a rate and burst, with accounting starting
    /// at `now_ns`.
    pub fn new(rate: u64, burst: u64, now_ns: u64) -> (r: TokenBucket)
        ensures
            r == TokenBucket::spec_new(rate, burst, now_ns),
            r.wf(),
    {
        TokenBucket { rate, burst, available: burst, last_refill_ns: now_ns }
    }

    /// Attempts to consume one token at `now_ns`. Grants the request and
    /// takes a token exactly when one is available after replenishment.
    pub fn try_acquire(&mut self, now_ns: u64) -> (granted: bool)
        requires
            old(self).wf(),
        ensures
            final(self).wf(),
            *final(self) == old(self).spec_try_acquire(now_ns).0,
            granted == old(self).spec_try_acquire(now_ns).1,
    {
        let elapsed: u64 = if now_ns >= self.last_refill_ns {
            now_ns - self.last_refill_ns
        } else {
            0
        };
        let deficit: u64 = self.burst - self.available;
        proof {
            assert((elapsed as int) * (self.rate as int) <= 0xffffffffffffffffu64 as int
                * 0xffffffffffffffffu64 as int) by (nonlinear_arith)
                requires
                    elapsed <= 0xffffffffffffffffu64,
                    self.rate <= 0xffffffffffffffffu64,
            ;
        }
        let gained: u128 = (elapsed as u128) * (self.rate as u128) / (NANOS_PER_SEC as u128);
        if gained >= deficit as u128 {
            self.available = self.burst;
            if now_ns >= self.last_refill_ns {
                self.last_refill_ns = now_ns;
            }
        } else if gained > 0 {
            proof {
                let e = elapsed as int;
                let r = self.rate as int;
                let g = NANOS_PER_SEC as int;
                let gain = e * r / g;
                if r == 0 {
                    assert(e * r == 0);
                    lemma_div_of0(g);
                    assert(false);
                }
                lemma_fundamental_div_mod(e * r, g);
                lemma_mod_bound(e * r, g);
                assert(gain * g <= e * r);
                lemma_div_is_ordered(gain * g, e * r, r);
                lemma_div_multiples_vanish(e, r);
                assert(e * r == r * e) by (nonlinear_arith);
                assert(gain * g / r <= e);
                assert((gain as int) * (g as int) <= 0xffffffffffffffffu64 as int * (g as int))
                    by (nonlinear_arith)
                    requires
                        0 <= gain <= 0xffffffffffffffffu64 as int,
                        g > 0,
                ;
            }
            let consumed: u128 = gained * (NANOS_PER_SEC as u128) / (self.rate as u128);
            self.available = self.available + (gained as u64);
            self.last_refill_ns = self.last_refill_ns + (consumed as u64);
        }
        if self.available > 0 {
            self.available = self.available - 1;
            true
        } else {
            false
        }
    }
}

/// The bucket after `n` consecutive acquisition attempts, all at `now_ns`.
pub open spec fn spec_acquire_n(b: TokenBucket, now_ns: u64, n: nat) -> TokenBucket
    decreases n,
{
    if n == 0 {
        b
    } else {
        spec_acquire_n(b, now_ns, (n - 1) as nat).spec_try_acquire(now_ns).0
    }
}

proof fn lemma_refill_at_instant(b: TokenBucket, now_ns: u64)
    requires
        b.wf(),
        now_ns <= b.last_refill_ns,
    ensures
        b.spec_refill(now_ns) == b,
{
    assert(b.spec_elapsed(now_ns) == 0);
    assert(0 * b.rate == 0);
    lemma_div_of0(NANOS_PER_SEC as int);
    if b.burst == b.available {
        assert(b.spec_refill(now_ns) == TokenBucket {
            rate: b.rate,
            burst: b.burst,
            available: b.burst,
            last_refill_ns: b.last_refill_ns,
        });
    }
}

/// At one instant, a bucket grants its first `n` acquisitions for any
/// `n` up to the tokens it holds, leaving exactly `n` fewer tokens.
pub proof fn lemma_acquire_sequence_at_instant(b: TokenBucket, n: nat)
    requires
        b.wf(),
        n <= b.available,
    ensures
        spec_acquire_n(b, b.last_refill_ns, n) == (TokenBucket {
            rate: b.rate,
            burst: b.burst,
            available: (b.available - n) as u64,
            last_refill_ns: b.last_refill_ns,
        }),
        n > 0 ==> spec_acquire_n(b, b.last_refill_ns, (n - 1) as nat).spec_try_acquire(
            b.last_refill_ns,
        ).1,
    decreases n,
{
    if n == 0 {
        lemma_refill_at_instant(b, b.last_refill_ns);
    } else {
        lemma_acquire_sequence_at_instant(b, (n - 1) as nat);
        let prev = spec_acquire_n(b, b.last_refill_ns, (n - 1) as nat);
        lemma_refill_at_instant(prev, b.last_refill_ns);
    }
}

/// A full bucket of capacity `burst` grants every one of its first `burst`
/// acquisitions at the fill instant.
pub proof fn lemma_burst_granted(rate: u64, burst: u64, t: u64, k: nat)
    requires
        k < burst,
    ensures
        spec_acquire_n(TokenBucket::spec_new(rate, burst, t), t, k).spec_try_acquire(t).1,
{
    lemma_acquire_sequence_at_instant(TokenBucket::spec_new(rate, burst, t), k + 1);
}

/// After `burst` acquisitions at the fill instant the bucket is empty, and
/// the next acquisition at that instant is refused.
pub proof fn lemma_burst_exhausted(rate: u64, burst: u64, t: u64)
    ensures
        spec_acquire_n(TokenBucket::spec_new(rate, burst, t), t, burst as nat).available == 0,
        !spec_acquire_n(TokenBucket::spec_new(rate, burst, t), t, burst as nat).spec_try_acquire(
            t,
        ).1,
{
    lemma_acquire_sequence_at_instant(TokenBucket::spec_new(rate, burst, t), burst as nat);
    let drained = spec_acquire_n(TokenBucket::spec_new(rate, burst, t), t, burst as nat);
    lemma_refill_at_instant(drained, t);
}

/// An empty bucket grants one more acquisition once a wait `now_ns -
/// last_refill_ns` has passed that covers at least one token of
/// replenishment — a wait of at least `1/rate` seconds.
pub proof fn lemma_refill_after_wait(b: TokenBucket, now_ns: u64)
    requires
        b.wf(),
        b.burst >= 1,
        b.available == 0,
        now_ns >= b.last_refill_ns,
        (now_ns - b.last_refill_ns) * b.rate >= NANOS_PER_SEC,
    ensures
        b.spec_try_acquire(now_ns).1,
{
    let e = b.spec_elapsed(now_ns);
    let g = NANOS_PER_SEC as int;
    lemma_div_is_ordered(g, e * b.rate, g);
    lemma_div_by_self(g);
    assert(b.spec_gained(now_ns) >= 1);
}

} // verus!
