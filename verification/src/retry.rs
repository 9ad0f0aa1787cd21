//! Retry with exponential backoff, expressed as an explicit finite-state
//! object — attempt count, next delay, terminal outcome — rather than
//! recursive control flow, so it is testable without a live network.
//!
//! The policy parameters (maximum attempts, base delay, delay cap) are
//! supplied by configuration; jitter, if any, is added by the caller on top of
//! the delay reported here.

use vstd::prelude::*;
use vstd::arithmetic::power2::pow2;
use vstd::arithmetic::power2::lemma_pow2_unfold;

verus! {

/// Externally supplied retry parameters for one shard connection.
#[derive(Clone, Copy, PartialEq, Eq, Structural, Debug)]
pub struct RetryPolicy {
    /// Total attempts allowed, the first one included.
    pub max_attempts: u32,
    /// Delay before the first re-attempt, in milliseconds.
    pub base_delay_ms: u64,
    /// Upper bound that the exponential backoff saturates at, in milliseconds.
    pub max_delay_ms: u64,
}

/// A policy that a retry state can be run against.
pub open spec fn policy_wf(p: RetryPolicy) -> bool {
    &&& p.max_attempts >= 1
    &&& p.base_delay_ms >= 1
    &&& p.base_delay_ms <= p.max_delay_ms
}

/// The delay the backoff schedule owes after `failures` failures: the base
/// delay doubled once per recorded failure, saturated at the cap.
pub open spec fn spec_backoff_delay(p: RetryPolicy, failures: nat) -> int {
    if p.base_delay_ms * pow2(failures) > p.max_delay_ms {
        p.max_delay_ms as int
    } else {
        p.base_delay_ms * pow2(failures)
    }
}

/// Progress of the retry schedule for one request to one shard.
pub struct RetryState {
    failures: u32,
    next_delay_ms: u64,
}

impl RetryState {
    /// How many failed attempts have been recorded.
    pub closed spec fn spec_failures(self) -> u32 {
        self.failures
    }

    /// The delay that the next re-attempt must wait, in milliseconds.
    pub closed spec fn spec_next_delay(self) -> u64 {
        self.next_delay_ms
    }

    /// The state tracks the policy's schedule exactly.
    pub open spec fn wf(self, p: RetryPolicy) -> bool {
        &&& policy_wf(p)
        &&& self.spec_next_delay() == spec_backoff_delay(p, self.spec_failures() as nat)
    }

    /// A fresh schedule: no failures yet, next delay at the base.
    pub fn new(p: &RetryPolicy) -> (r: RetryState)
        requires
            policy_wf(*p),
        ensures
            r.wf(*p),
            r.spec_failures() == 0,
            r.spec_next_delay() == p.base_delay_ms,
    {
        proof {
            vstd::arithmetic::power2::lemma2_to64();
            assert(p.base_delay_ms * pow2(0) == p.base_delay_ms * 1);
        }
        RetryState { failures: 0, next_delay_ms: p.base_delay_ms }
    }

    /// How many failed attempts have been recorded.
    pub fn failures(&self) -> (r: u32)
        ensures
            r == self.spec_failures(),
    {
        self.failures
    }

    /// The delay the next re-attempt must wait, in milliseconds.
    pub fn next_delay_ms(&self) -> (r: u64)
        ensures
            r == self.spec_next_delay(),
    {
        self.next_delay_ms
    }

    /// Whether the attempt budget is spent: no re-attempt may follow.
    pub fn exhausted(&self, p: &RetryPolicy) -> (r: bool)
        ensures
            r == (self.spec_failures() >= p.max_attempts),
    {
        self.failures >= p.max_attempts
    }

    /// Records one failed attempt. Returns true when the policy allows a
    /// further attempt, whose delay [`Self::next_delay_ms`] then reports;
    /// returns false when the budget is exhausted and the failure is terminal.
    /// The delay doubles on every recorded failure and saturates at the cap.
    pub fn record_failure(&mut self, p: &RetryPolicy) -> (retry: bool)
        requires
            old(self).wf(*p),
            old(self).spec_failures() < u32::MAX,
        ensures
            final(self).wf(*p),
            final(self).spec_failures() == old(self).spec_failures() + 1,
            retry == (old(self).spec_failures() + 1 < p.max_attempts),
            final(self).spec_next_delay() <= p.max_delay_ms,
    {
        proof {
            lemma_backoff_step(*p, self.failures as nat);
            assert(2 * ((p.max_delay_ms / 2) as int) <= p.max_delay_ms);
        }
        self.failures = self.failures + 1;
        self.next_delay_ms = if self.next_delay_ms > p.max_delay_ms / 2 {
            p.max_delay_ms
        } else {
            self.next_delay_ms * 2
        };
        self.failures < p.max_attempts
    }
}

/// One doubling step of the backoff schedule: after one more failure the owed
/// delay is the old delay doubled, saturated at the cap.
proof fn lemma_backoff_step(p: RetryPolicy, f: nat)
    requires
        policy_wf(p),
    ensures
        spec_backoff_delay(p, f + 1) == if spec_backoff_delay(p, f) > p.max_delay_ms / 2 {
            p.max_delay_ms as int
        } else {
            2 * spec_backoff_delay(p, f)
        },
{
    vstd::arithmetic::power2::lemma_pow2_pos(f);
    lemma_pow2_unfold(f + 1);
    let b = p.base_delay_ms as int;
    let m = p.max_delay_ms as int;
    let q = pow2(f) as int;
    assert(b * (2 * q) == 2 * (b * q)) by (nonlinear_arith);
    assert(b * pow2(f + 1) == 2 * (b * q));
    if b * q > m {
        assert(2 * (b * q) > m);
        assert(m > m / 2);
    } else {
        if b * q > m / 2 {
            assert(2 * (m / 2) >= m - 1);
            assert(2 * (b * q) > m);
        } else {
            assert(2 * (m / 2) <= m);
            assert(2 * (b * q) <= m);
        }
    }
}

/// The backoff schedule never reports a delay above the policy's cap, and
/// never below its base.
pub proof fn lemma_backoff_bounded(p: RetryPolicy, failures: nat)
    requires
        policy_wf(p),
    ensures
        spec_backoff_delay(p, failures) <= p.max_delay_ms,
        spec_backoff_delay(p, failures) >= p.base_delay_ms,
{
    vstd::arithmetic::power2::lemma_pow2_pos(failures);
    assert(p.base_delay_ms * pow2(failures) >= p.base_delay_ms * 1) by (nonlinear_arith)
        requires
            pow2(failures) >= 1,
            p.base_delay_ms >= 1,
    ;
}

} // verus!
