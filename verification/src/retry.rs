//! Retry policy: exponential backoff with a hard attempt cap.
//!
//! After the n-th failed attempt a record must wait `2^n` minutes before it
//! is due again; after [`crate::record::MAX_RETRIES`] failures it is out of
//! budget for good.

use vstd::prelude::*;

use crate::record::MAX_RETRIES;

verus! {

/// Two to the power `n`.
pub open spec fn pow2(n: nat) -> nat
    decreases n,
{
    if n == 0 {
        1nat
    } else {
        2 * pow2((n - 1) as nat)
    }
}

/// The backoff window, in seconds, after the `attempts`-th failed attempt:
/// exactly `2^attempts` minutes.
pub open spec fn backoff_seconds(attempts: u64) -> int {
    60 * (pow2(attempts as nat) as int)
}

/// Within the retry budget, `pow2` stays small.
pub proof fn lemma_pow2_within_budget(n: nat)
    requires
        n <= MAX_RETRIES,
    ensures
        1 <= pow2(n) <= 32,
{
    assert(pow2(0) == 1);
    assert(pow2(1) == 2);
    assert(pow2(2) == 4);
    assert(pow2(3) == 8);
    assert(pow2(4) == 16);
    assert(pow2(5) == 32);
    assert(n == 0 || n == 1 || n == 2 || n == 3 || n == 4 || n == 5);
}

/// Largest backoff the policy can produce: `2^MAX_RETRIES` minutes in
/// seconds.
pub const MAX_BACKOFF_SECONDS: i64 = 1920;

/// Computes the backoff window in seconds after the `attempts`-th failed
/// attempt.
pub fn backoff_delay(attempts: u64) -> (r: i64)
    requires
        attempts <= MAX_RETRIES,
    ensures
        r == backoff_seconds(attempts),
        60 <= r <= MAX_BACKOFF_SECONDS,
{
    proof {
        lemma_pow2_within_budget(attempts as nat);
    }
    let mut p: i64 = 1;
    let mut i: u64 = 0;
    while i < attempts
        invariant
            0 <= i <= attempts,
            attempts <= MAX_RETRIES,
            p == pow2(i as nat),
        decreases attempts - i,
    {
        proof {
            lemma_pow2_within_budget((i + 1) as nat);
        }
        p = p * 2;
        i = i + 1;
    }
    60 * p
}

} // verus!
