//! The bounded retry state machine of the obfuscated-contact lookup.
//!
//! The secondary endpoint throttles with HTTP 429. The lookup then sleeps
//! `2^(attempt+1)` seconds and tries again, up to three retries; a fourth
//! throttled response gives the call up. Any other response is accepted
//! and handed on to parsing. The state is the attempt count alone; the
//! caller performs the sleep and the request and feeds the status back.

use vstd::prelude::*;

verus! {

/// The HTTP status the secondary endpoint throttles with.
pub const THROTTLED_STATUS: u16 = 429;

/// The most retries one lookup call makes.
pub const MAX_RETRIES: u32 = 3;

/// What the lookup does next after one response.
#[derive(Debug, Clone, Copy, PartialEq, Eq, Structural)]
pub enum LookupAction {
    /// Take the response body and parse it.
    Accept,
    /// Sleep this many seconds, then send the request again.
    Retry { sleep_secs: u64 },
    /// Too many throttled responses: this lookup call fails.
    GiveUp,
}

/// Two to the power `e`.
pub open spec fn pow2(e: nat) -> nat
    decreases e,
{
    if e == 0 {
        1
    } else {
        2 * pow2((e - 1) as nat)
    }
}

/// The next action after a response with the given status on the given
/// attempt (0 is the first try).
pub open spec fn spec_lookup_action(attempt: u32, status: u16) -> LookupAction {
    if status != THROTTLED_STATUS {
        LookupAction::Accept
    } else if attempt < MAX_RETRIES {
        LookupAction::Retry { sleep_secs: pow2((attempt + 1) as nat) as u64 }
    } else {
        LookupAction::GiveUp
    }
}

/// Decide the lookup's next step from the attempt count and the response
/// status: accept any non-throttled response; on a throttled one, back
/// off exponentially until the retries are spent.
pub fn next_lookup_action(attempt: u32, status: u16) -> (a: LookupAction)
    ensures
        a == spec_lookup_action(attempt, status),
{
    if status != THROTTLED_STATUS {
        LookupAction::Accept
    } else if attempt < MAX_RETRIES {
        let sleep_secs: u64 = if attempt == 0 {
            2
        } else if attempt == 1 {
            4
        } else {
            8
        };
        proof {
            reveal_with_fuel(pow2, 5);
        }
        LookupAction::Retry { sleep_secs }
    } else {
        LookupAction::GiveUp
    }
}

/// The retry schedule: three consecutive throttled responses are retried
/// after sleeps of 2, 4 and 8 seconds, 14 seconds in all; a fourth
/// throttled response gives the call up without another attempt, and any
/// non-throttled response is accepted at once.
pub proof fn lemma_retry_schedule()
    ensures
        spec_lookup_action(0, THROTTLED_STATUS) == (LookupAction::Retry { sleep_secs: 2 }),
        spec_lookup_action(1, THROTTLED_STATUS) == (LookupAction::Retry { sleep_secs: 4 }),
        spec_lookup_action(2, THROTTLED_STATUS) == (LookupAction::Retry { sleep_secs: 8 }),
        2 + 4 + 8 == 14,
        spec_lookup_action(3, THROTTLED_STATUS) == LookupAction::GiveUp,
        forall|attempt: u32, status: u16|
            status != THROTTLED_STATUS ==> spec_lookup_action(attempt, status)
                == LookupAction::Accept,
{
    reveal_with_fuel(pow2, 5);
}

} // verus!
