//! The process-wide throttle on the primary profile API: a token bucket
//! refilled continuously at one permit per second.
//!
//! The throttle holds no clock and never sleeps. Its caller reads the
//! time, asks for a token, and waits out the returned delay before
//! sending the request.

use vstd::prelude::*;

verus! {

/// One token per second, as nanoseconds between grants.
pub const REFILL_PERIOD_NS: u64 = 1_000_000_000;

/// The moment a request is granted: at once when a token is free, else
/// when the next one becomes free.
pub open spec fn grant_time(next_free_ns: int, now_ns: int) -> int {
    if now_ns >= next_free_ns {
        now_ns
    } else {
        next_free_ns
    }
}

/// The token-bucket throttle. `next_free_ns` is the earliest moment, on
/// the caller's clock, at which the next token is free.
pub struct RateGate {
    pub next_free_ns: u64,
}

impl RateGate {
    /// A fresh gate whose first token is free at once.
    pub fn new() -> (g: RateGate)
        ensures
            g.next_free_ns == 0,
    {
        RateGate { next_free_ns: 0 }
    }

    /// Claim the next token at time `now_ns`. The caller must sleep the
    /// returned number of nanoseconds before sending; the following token
    /// becomes free one refill period after this grant.
    pub fn acquire(&mut self, now_ns: u64) -> (wait_ns: u64)
        requires
            now_ns + REFILL_PERIOD_NS <= u64::MAX,
            old(self).next_free_ns + REFILL_PERIOD_NS <= u64::MAX,
        ensures
            wait_ns == grant_time(old(self).next_free_ns as int, now_ns as int) - now_ns,
            final(self).next_free_ns == grant_time(old(self).next_free_ns as int, now_ns as int)
                + REFILL_PERIOD_NS,
    {
        if now_ns >= self.next_free_ns {
            self.next_free_ns = now_ns + REFILL_PERIOD_NS;
            0
        } else {
            let wait = self.next_free_ns - now_ns;
            self.next_free_ns = self.next_free_ns + REFILL_PERIOD_NS;
            wait
        }
    }
}

/// Consecutive tokens become due at least one refill period apart,
/// whatever times the callers ask at.
pub proof fn lemma_grants_spaced(next_free1: int, now1: int, now2: int)
    ensures
        grant_time(grant_time(next_free1, now1) + REFILL_PERIOD_NS, now2) >= grant_time(
            next_free1,
            now1,
        ) + REFILL_PERIOD_NS,
{
}

} // verus!
