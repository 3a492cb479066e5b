//! The reconnect policy: exponential backoff up to a fixed number of attempts.
use vstd::arithmetic::power2::{lemma2_to64, lemma2_to64_rest, lemma_pow2_strictly_increases, lemma_pow2_unfold, pow2};
use vstd::prelude::*;

verus! {

/// Reconnect attempts allowed before giving up.
pub const MAX_ATTEMPTS: u32 = 3;

proof fn lemma_pow2_step(i: nat)
    requires
        i < 63,
    ensures
        pow2(i + 1) == 2 * pow2(i),
        pow2(i + 1) <= 0x8000_0000_0000_0000,
{
    lemma_pow2_unfold(i + 1);
    lemma2_to64_rest();
    if i + 1 < 63 {
        lemma_pow2_strictly_increases(i + 1, 63);
    }
}

/// What to do after a failed connection attempt.
#[derive(Clone, Copy, Debug, PartialEq, Eq, Structural)]
pub enum RetryDecision {
    /// Wait this many seconds, then make attempt number `attempt`.
    Retry { attempt: u32, delay_secs: u64 },
    /// Attempts are used up: the failure is final.
    Exhausted,
}

/// Counts failed attempts since the last successful handshake.
#[derive(Clone, Copy, Debug, PartialEq, Eq, Structural)]
pub struct ReconnectPolicy {
    pub attempt: u32,
    pub max_attempts: u32,
}

/// The decision for one more failure, and the policy afterwards.
pub open spec fn on_failure_spec(p: ReconnectPolicy) -> (ReconnectPolicy, RetryDecision) {
    if p.attempt < p.max_attempts {
        let a = (p.attempt + 1) as u32;
        (ReconnectPolicy { attempt: a, ..p }, RetryDecision::Retry { attempt: a, delay_secs: pow2(a as nat) as u64 })
    } else {
        (p, RetryDecision::Exhausted)
    }
}

/// With the standard bound of three attempts, successive failures after a
/// successful handshake wait 2, 4 and 8 seconds, and the fourth is final
/// with no further wait.
pub proof fn lemma_backoff_schedule()
    ensures
        ({
            let p0 = ReconnectPolicy { attempt: 0, max_attempts: MAX_ATTEMPTS };
            let f1 = on_failure_spec(p0);
            let f2 = on_failure_spec(f1.0);
            let f3 = on_failure_spec(f2.0);
            let f4 = on_failure_spec(f3.0);
            &&& f1.1 == RetryDecision::Retry { attempt: 1, delay_secs: 2 }
            &&& f2.1 == RetryDecision::Retry { attempt: 2, delay_secs: 4 }
            &&& f3.1 == RetryDecision::Retry { attempt: 3, delay_secs: 8 }
            &&& f4.1 == RetryDecision::Exhausted
        }),
{
    lemma2_to64();
}

impl ReconnectPolicy {
    /// A policy with the standard bound and no failures yet.
    pub fn new() -> (r: Self)
        ensures
            r == (ReconnectPolicy { attempt: 0, max_attempts: MAX_ATTEMPTS }),
    {
        ReconnectPolicy { attempt: 0, max_attempts: MAX_ATTEMPTS }
    }

    /// A policy allowing `max_attempts` attempts; the bound keeps the
    /// longest delay within 64 bits.
    pub fn with_max_attempts(max_attempts: u32) -> (r: Self)
        requires
            max_attempts <= 63,
        ensures
            r == (ReconnectPolicy { attempt: 0, max_attempts }),
    {
        ReconnectPolicy { attempt: 0, max_attempts }
    }

    /// Records a failed attempt: the next attempt waits `2^attempt` seconds,
    /// counting from 1, until the bound is reached.
    pub fn on_failure(&mut self) -> (r: RetryDecision)
        requires
            old(self).max_attempts <= 63,
            old(self).attempt <= old(self).max_attempts,
        ensures
            (*final(self), r) == on_failure_spec(*old(self)),
            final(self).attempt <= final(self).max_attempts,
    {
        if self.attempt < self.max_attempts {
            self.attempt = self.attempt + 1;
            let mut delay: u64 = 1;
            proof {
                lemma2_to64();
            }
            let mut i: u32 = 0;
            while i < self.attempt
                invariant
                    i <= self.attempt <= 63,
                    delay == pow2(i as nat),
                decreases self.attempt - i,
            {
                proof {
                    lemma_pow2_step(i as nat);
                }
                delay = delay * 2;
                i = i + 1;
            }
            RetryDecision::Retry { attempt: self.attempt, delay_secs: delay }
        } else {
            RetryDecision::Exhausted
        }
    }

    /// Forgets earlier failures, after a successful handshake.
    pub fn reset(&mut self)
        ensures
            *final(self) == (ReconnectPolicy { attempt: 0, ..*old(self) }),
    {
        self.attempt = 0;
    }
}

} // verus!
