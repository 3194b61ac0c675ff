//! Readiness probing: poll a freshly spawned service until it answers, or
//! the attempt budget runs out.
//!
//! The prober cannot open sockets; the surrounding program sleeps for the
//! delay the prober asks for, sends one HTTP HEAD request with a short
//! timeout, and reports whether a success-class response came back. A raw
//! TCP connect beforehand is diagnostic only and is never reported as
//! success. When the budget is exhausted, the caller must kill the
//! associated child process and surface a timeout.

use vstd::prelude::*;
use crate::retry::{backoff_ms, backoff_ms_spec, RetryPolicy};

verus! {

/// What the caller must do after reporting one poll outcome.
pub enum ProbeStep {
    /// The service answered with a success-class status: it is ready.
    Ready,
    /// Not ready yet: sleep for the given delay, then poll once more.
    Retry { delay_ms: u64 },
    /// The attempt budget is spent: kill the child and report a timeout.
    TimedOut,
}

/// Poll budget and count of failed polls so far.
pub struct Prober {
    pub policy: RetryPolicy,
    /// Polls that have failed so far; never beyond the budget.
    pub attempts: u32,
}

impl Prober {
    pub open spec fn wf(self) -> bool {
        &&& self.policy.wf()
        &&& self.attempts <= self.policy.max_attempts
    }

    /// The transition taken by `record`, as a function of the prober and
    /// the poll outcome.
    pub open spec fn spec_record(self, ok: bool) -> (Prober, ProbeStep)
        recommends
            self.attempts < self.policy.max_attempts,
    {
        if ok {
            (self, ProbeStep::Ready)
        } else {
            let stepped = Prober { policy: self.policy, attempts: (self.attempts + 1) as u32 };
            if self.attempts + 1 == self.policy.max_attempts {
                (stepped, ProbeStep::TimedOut)
            } else {
                (
                    stepped,
                    ProbeStep::Retry {
                        delay_ms: backoff_ms_spec(
                            self.policy.initial_delay_ms,
                            self.policy.mult_num,
                            self.policy.mult_den,
                            (self.attempts + 1) as nat,
                        ),
                    },
                )
            }
        }
    }

    /// A fresh prober: no poll made yet.
    pub fn new(policy: RetryPolicy) -> (r: Prober)
        requires
            policy.wf(),
        ensures
            r.wf(),
            r.policy == policy,
            r.attempts == 0,
    {
        Prober { policy, attempts: 0 }
    }

    /// The delay to sleep before the next poll: the starting delay, grown
    /// once per failed poll so far.
    pub fn delay_before_next(&self) -> (d: u64)
        requires
            self.wf(),
        ensures
            d == backoff_ms_spec(
                self.policy.initial_delay_ms,
                self.policy.mult_num,
                self.policy.mult_den,
                self.attempts as nat,
            ),
    {
        backoff_ms(
            self.policy.initial_delay_ms,
            self.policy.mult_num,
            self.policy.mult_den,
            self.attempts,
        )
    }

    /// Reports the outcome of one poll. A success-class answer makes the
    /// service ready at once, whatever the attempt index; a failure counts
    /// against the budget, and spending the budget's last attempt times the
    /// probe out.
    pub fn record(&mut self, ok: bool) -> (r: ProbeStep)
        requires
            old(self).wf(),
            old(self).attempts < old(self).policy.max_attempts,
        ensures
            final(self).wf(),
            (*final(self), r) == old(self).spec_record(ok),
    {
        if ok {
            ProbeStep::Ready
        } else {
            self.attempts = self.attempts + 1;
            if self.attempts == self.policy.max_attempts {
                ProbeStep::TimedOut
            } else {
                ProbeStep::Retry { delay_ms: self.delay_before_next() }
            }
        }
    }
}

/// The prober after a number of failed polls.
pub open spec fn after_failed_polls(p: Prober, n: nat) -> Prober
    decreases n,
{
    if n == 0 {
        p
    } else {
        after_failed_polls(p, (n - 1) as nat).spec_record(false).0
    }
}

/// A target that already answers is reported ready on the very first poll,
/// with no attempt consumed.
pub proof fn lemma_ready_on_first_poll(p: Prober)
    requires
        p.wf(),
        p.attempts == 0,
    ensures
        p.spec_record(true) == (p, ProbeStep::Ready),
{
}

/// A probe whose polls all fail times out on exactly the last poll of its
/// budget: every earlier failed poll asks for another retry, and the poll
/// that spends the budget reports the timeout.
pub proof fn lemma_timeout_after_exact_budget(p: Prober, n: nat)
    requires
        p.wf(),
        p.attempts == 0,
        n < p.policy.max_attempts,
    ensures
        after_failed_polls(p, n).wf(),
        after_failed_polls(p, n).attempts == n,
        after_failed_polls(p, n).policy == p.policy,
        after_failed_polls(p, n).spec_record(false).1 == (if n + 1 == p.policy.max_attempts {
            ProbeStep::TimedOut
        } else {
            ProbeStep::Retry {
                delay_ms: backoff_ms_spec(
                    p.policy.initial_delay_ms,
                    p.policy.mult_num,
                    p.policy.mult_den,
                    n + 1,
                ),
            }
        }),
    decreases n,
{
    if n > 0 {
        lemma_timeout_after_exact_budget(p, (n - 1) as nat);
    }
}

} // verus!
