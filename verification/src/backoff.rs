//! Exponential reconnect backoff with a configured cap.

use vstd::prelude::*;

verus! {

/// `2^n`.
pub open spec fn spec_pow2(n: nat) -> int
    decreases n,
{
    if n == 0 {
        1
    } else {
        2 * spec_pow2((n - 1) as nat)
    }
}

pub proof fn lemma_pow2_pos(n: nat)
    ensures
        spec_pow2(n) >= 1,
    decreases n,
{
    if n > 0 {
        lemma_pow2_pos((n - 1) as nat);
    }
}

pub proof fn lemma_pow2_mono(a: nat, b: nat)
    requires
        a <= b,
    ensures
        spec_pow2(a) <= spec_pow2(b),
    decreases b,
{
    if a < b {
        lemma_pow2_mono(a, (b - 1) as nat);
        lemma_pow2_pos((b - 1) as nat);
    }
}

/// The wait before reconnect attempt number `attempt` (counting from
/// zero): `base * 2^attempt`, but never more than `cap`.
pub open spec fn spec_backoff_ms(base: u64, cap: u64, attempt: u32) -> u64 {
    if base * spec_pow2(attempt as nat) >= cap {
        cap
    } else {
        (base * spec_pow2(attempt as nat)) as u64
    }
}

/// Computes the capped exponential backoff interval.
pub fn backoff_ms(base: u64, cap: u64, attempt: u32) -> (r: u64)
    ensures
        r == spec_backoff_ms(base, cap, attempt),
{
    let mut v: u64 = if base >= cap {
        cap
    } else {
        base
    };
    let mut i: u32 = 0;
    proof {
        assert(spec_pow2(0) == 1);
    }
    while i < attempt
        invariant
            0 <= i <= attempt,
            base * spec_pow2(i as nat) >= cap ==> v == cap,
            base * spec_pow2(i as nat) < cap ==> v == base * spec_pow2(i as nat),
            v <= cap,
        decreases attempt - i,
    {
        let ghost p = spec_pow2(i as nat);
        proof {
            lemma_pow2_pos(i as nat);
            assert(spec_pow2((i + 1) as nat) == 2 * p);
            assert(base * (2 * p) == 2 * (base * p)) by (nonlinear_arith);
        }
        if v > cap / 2 {
            proof {
                if base * p < cap {
                    assert(2 * v >= cap);
                }
            }
            v = cap;
        } else {
            v = 2 * v;
        }
        i = i + 1;
    }
    v
}

/// Backoff intervals are non-decreasing in the attempt number, up to the
/// configured cap.
pub proof fn lemma_backoff_monotone(base: u64, cap: u64, a1: u32, a2: u32)
    requires
        a1 <= a2,
    ensures
        spec_backoff_ms(base, cap, a1) <= spec_backoff_ms(base, cap, a2),
{
    lemma_pow2_pos(a1 as nat);
    lemma_pow2_pos(a2 as nat);
    lemma_pow2_mono(a1 as nat, a2 as nat);
    assert(base * spec_pow2(a1 as nat) <= base * spec_pow2(a2 as nat)) by (nonlinear_arith)
        requires spec_pow2(a1 as nat) <= spec_pow2(a2 as nat);
}

/// The backoff never exceeds the cap, and the first attempt (counter
/// zero) waits exactly the base interval when the base is within the cap.
pub proof fn lemma_backoff_bounds(base: u64, cap: u64, attempt: u32)
    ensures
        spec_backoff_ms(base, cap, attempt) <= cap,
        base <= cap ==> spec_backoff_ms(base, cap, 0) == base,
{
    lemma_pow2_pos(attempt as nat);
    assert(spec_pow2(0nat) == 1);
}

} // verus!
