//! Retry budgets and growing delays.
//!
//! Both retry loops — the outer launch loop and the readiness-poll loop —
//! use a policy of this shape, with their own attempt budget, starting
//! delay and growth factor. The growth factor is a rational `num / den`,
//! applied in integer arithmetic so that a fractional factor still grows
//! the delay instead of collapsing to a constant.

use vstd::prelude::*;
use vstd::arithmetic::div_mod::{
    lemma_div_is_ordered,
    lemma_div_multiples_vanish,
    lemma_div_nonincreasing,
};
use vstd::arithmetic::mul::lemma_mul_inequality;

verus! {

/// Delays stop growing once they pass this cap (about 49 days), so that
/// the arithmetic can never overflow however many attempts a policy allows.
pub const DELAY_CAP_MS: u64 = 0x1_0000_0000;

/// Attempt budget and backoff shape of one retry loop.
#[derive(Clone, Copy, PartialEq, Eq, Structural)]
pub struct RetryPolicy {
    /// How many attempts are made before giving up.
    pub max_attempts: u32,
    /// Delay attached to the first attempt, in milliseconds.
    pub initial_delay_ms: u64,
    /// Numerator of the per-attempt growth factor.
    pub mult_num: u64,
    /// Denominator of the per-attempt growth factor.
    pub mult_den: u64,
}

impl RetryPolicy {
    /// At least one attempt; a starting delay under the cap; a growth
    /// factor of at least one, small enough that one step never overflows.
    pub open spec fn wf(self) -> bool {
        &&& 1 <= self.max_attempts
        &&& self.initial_delay_ms <= DELAY_CAP_MS
        &&& 1 <= self.mult_den <= self.mult_num <= 16
    }
}

/// One growth step: multiply by `num / den` in integer arithmetic, frozen
/// once the delay has passed the cap.
pub open spec fn backoff_step(d: u64, num: u64, den: u64) -> u64
    recommends
        1 <= den <= num <= 16,
{
    if d <= DELAY_CAP_MS {
        (d as int * num as int / den as int) as u64
    } else {
        d
    }
}

/// The delay attached to the attempt with the given index: the starting
/// delay grown by one step per earlier attempt.
pub open spec fn backoff_ms_spec(base: u64, num: u64, den: u64, attempt: nat) -> u64
    recommends
        base <= DELAY_CAP_MS,
        1 <= den <= num <= 16,
    decreases attempt,
{
    if attempt == 0 {
        base
    } else {
        backoff_step(backoff_ms_spec(base, num, den, (attempt - 1) as nat), num, den)
    }
}

/// Computes `backoff_ms_spec` for a concrete attempt index.
pub fn backoff_ms(base: u64, num: u64, den: u64, attempt: u32) -> (d: u64)
    requires
        base <= DELAY_CAP_MS,
        1 <= den <= num <= 16,
    ensures
        d == backoff_ms_spec(base, num, den, attempt as nat),
{
    let mut d: u64 = base;
    let mut i: u32 = 0;
    while i < attempt
        invariant
            base <= DELAY_CAP_MS,
            1 <= den <= num <= 16,
            i <= attempt,
            d == backoff_ms_spec(base, num, den, i as nat),
            d <= 16 * DELAY_CAP_MS,
        decreases attempt - i,
    {
        if d <= DELAY_CAP_MS {
            proof {
                lemma_mul_inequality(d as int, DELAY_CAP_MS as int, num as int);
                lemma_div_is_ordered(
                    d as int * num as int,
                    DELAY_CAP_MS as int * num as int,
                    den as int,
                );
            }
            d = d * num / den;
        }
        i = i + 1;
    }
    d
}

/// The delay never shrinks from one attempt to the next: the wait between
/// polls grows (weakly) with the attempt index.
pub proof fn lemma_backoff_grows(base: u64, num: u64, den: u64, attempt: nat)
    requires
        base <= DELAY_CAP_MS,
        1 <= den <= num <= 16,
    ensures
        backoff_ms_spec(base, num, den, attempt) <= backoff_ms_spec(base, num, den, attempt + 1),
{
    let d = backoff_ms_spec(base, num, den, attempt);
    if d <= DELAY_CAP_MS {
        assert(den as int * d as int <= num as int * d as int) by (nonlinear_arith)
            requires
                1 <= den <= num,
                d >= 0,
        ;
        assert(d as int * den as int == den as int * d as int) by (nonlinear_arith);
        assert(d as int * num as int == num as int * d as int) by (nonlinear_arith);
        lemma_div_is_ordered(d as int * den as int, d as int * num as int, den as int);
        lemma_div_multiples_vanish(d as int, den as int);
        lemma_mul_inequality(d as int, DELAY_CAP_MS as int, num as int);
        lemma_div_is_ordered(
            d as int * num as int,
            DELAY_CAP_MS as int * num as int,
            den as int,
        );
        lemma_div_nonincreasing(DELAY_CAP_MS as int * num as int, den as int);
    }
}

/// A strictly fractional growth factor really grows the delay: once the
/// delay has reached the factor's denominator (and is still under the
/// cap), the next step is strictly longer. In particular a factor such as
/// six fifths does not collapse to a constant delay under integer
/// arithmetic.
pub proof fn lemma_backoff_strictly_grows(d: u64, num: u64, den: u64)
    requires
        1 <= den < num <= 16,
        den <= d <= DELAY_CAP_MS,
    ensures
        backoff_step(d, num, den) > d,
{
    assert(d as int * num as int >= d as int * den as int + d as int) by (nonlinear_arith)
        requires
            num as int >= den as int + 1,
            d >= 0,
    ;
    assert(d as int * den as int + den as int == (d as int + 1) * den as int) by (nonlinear_arith);
    lemma_div_is_ordered(
        (d as int + 1) * den as int,
        d as int * num as int,
        den as int,
    );
    assert((d as int + 1) * den as int == den as int * (d as int + 1)) by (nonlinear_arith);
    lemma_div_multiples_vanish(d as int + 1, den as int);
    lemma_mul_inequality(d as int, DELAY_CAP_MS as int, num as int);
    lemma_div_is_ordered(
        d as int * num as int,
        DELAY_CAP_MS as int * num as int,
        den as int,
    );
    lemma_div_nonincreasing(DELAY_CAP_MS as int * num as int, den as int);
}

} // verus!
