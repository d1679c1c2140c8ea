//! The arithmetic of retrying: how long to wait between attempts, how long
//! the attempts may take together, and how a failed attempt is reported.

use vstd::prelude::*;
use vstd::arithmetic::power2::{lemma2_to64, lemma_pow2_strictly_increases, lemma_pow2_unfold, pow2};
use vstd::string::StringExecFns;
use crate::strings::{decimal, push_decimal};

verus! {

/// The wait after the first failed attempt, in milliseconds.
pub const BASE_BACKOFF_MS: u64 = 1000;

/// What the attempts of one URL may take together beyond the time allowed to
/// one attempt, in milliseconds.
pub const OVERALL_GRACE_MS: u64 = 5000;

/// The wait after the failed attempt number `attempt` (the first is number
/// 1), in milliseconds: 1000 after the first, and twice the last one after
/// each further attempt.
pub open spec fn backoff_wait(attempt: nat) -> nat {
    1000 * pow2(
        if attempt >= 1 {
            (attempt - 1) as nat
        } else {
            0
        },
    )
}

/// The wait after the failed attempt number `attempt` as the machine can
/// hold it: `backoff_wait`, or the largest `u64` where that is less.
pub open spec fn backoff_ms(attempt: u32) -> u64 {
    if backoff_wait(attempt as nat) <= u64::MAX {
        backoff_wait(attempt as nat) as u64
    } else {
        u64::MAX
    }
}

/// The waits after the first `failures` attempts, added up.
pub open spec fn total_backoff(failures: nat) -> nat
    decreases failures,
{
    if failures == 0 {
        0
    } else {
        total_backoff((failures - 1) as nat) + backoff_wait(failures)
    }
}

/// The wait grows from attempt to attempt.
pub proof fn lemma_backoff_grows(earlier: nat, later: nat)
    requires
        earlier <= later,
    ensures
        backoff_wait(earlier) <= backoff_wait(later),
{
    if 1 <= earlier < later {
        lemma_pow2_strictly_increases((earlier - 1) as nat, (later - 1) as nat);
        assert(1000 * pow2((earlier - 1) as nat) <= 1000 * pow2((later - 1) as nat))
            by (nonlinear_arith)
            requires
                pow2((earlier - 1) as nat) < pow2((later - 1) as nat),
        ;
    } else if earlier == 0 && later >= 2 {
        lemma_pow2_strictly_increases(0, (later - 1) as nat);
        assert(1000 * pow2(0) <= 1000 * pow2((later - 1) as nat)) by (nonlinear_arith)
            requires
                pow2(0) < pow2((later - 1) as nat),
        ;
    }
}

/// After `failures` failed attempts the waits add up to
/// `1000 * (2^failures - 1)` milliseconds: 1000, 3000, 7000 and so on.
pub proof fn lemma_total_backoff(failures: nat)
    ensures
        total_backoff(failures) == 1000 * (pow2(failures) - 1),
    decreases failures,
{
    if failures == 0 {
        lemma2_to64();
    } else {
        lemma_total_backoff((failures - 1) as nat);
        lemma_pow2_unfold(failures);
        let half = pow2((failures - 1) as nat);
        assert(1000 * (half - 1) + 1000 * half == 1000 * (2 * half - 1)) by (nonlinear_arith);
    }
}

/// How long to wait after the failed attempt number `attempt`, in
/// milliseconds.
pub fn backoff(attempt: u32) -> (wait_ms: u64)
    ensures
        wait_ms == backoff_ms(attempt),
{
    proof {
        lemma2_to64();
    }
    let mut wait_ms: u64 = BASE_BACKOFF_MS;
    if attempt <= 1 {
        return wait_ms;
    }
    let mut reached: u32 = 1;
    while reached < attempt && wait_ms < u64::MAX
        invariant
            1 <= reached <= attempt,
            wait_ms == backoff_ms(reached),
        decreases attempt - reached,
    {
        proof {
            lemma_pow2_unfold(reached as nat);
            assert(backoff_wait((reached + 1) as nat) == 2 * backoff_wait(reached as nat))
                by (nonlinear_arith)
                requires
                    backoff_wait((reached + 1) as nat) == 1000 * pow2(reached as nat),
                    backoff_wait(reached as nat) == 1000 * pow2((reached - 1) as nat),
                    pow2(reached as nat) == 2 * pow2((reached - 1) as nat),
            ;
        }
        if wait_ms > u64::MAX / 2 {
            wait_ms = u64::MAX;
        } else {
            wait_ms = wait_ms * 2;
        }
        reached = reached + 1;
    }
    proof {
        lemma_backoff_grows(reached as nat, attempt as nat);
    }
    wait_ms
}

/// The time that all attempts at one URL may take together: `timeout_ms`
/// and 5000 milliseconds more, or the largest `u64` where that is less.
pub open spec fn overall_budget_ms(timeout_ms: u64) -> u64 {
    if timeout_ms + OVERALL_GRACE_MS <= u64::MAX {
        (timeout_ms + OVERALL_GRACE_MS) as u64
    } else {
        u64::MAX
    }
}

/// The time that all attempts at one URL may take together, in milliseconds.
pub fn overall_budget(timeout_ms: u64) -> (budget_ms: u64)
    ensures
        budget_ms == overall_budget_ms(timeout_ms),
{
    if timeout_ms > u64::MAX - OVERALL_GRACE_MS {
        u64::MAX
    } else {
        timeout_ms + OVERALL_GRACE_MS
    }
}

/// The report of a failed attempt: its number, the number of attempts
/// allowed, and the cause.
pub open spec fn attempt_text(attempt: u32, max_retries: u32, cause: Seq<char>) -> Seq<char> {
    "Attempt "@ + decimal(attempt as nat) + "/"@ + decimal(max_retries as nat) + ": "@ + cause
}

/// Reports that attempt number `attempt` of `max_retries` failed for the
/// reason `cause`.
pub fn annotate(attempt: u32, max_retries: u32, cause: &str) -> (message: String)
    ensures
        message@ == attempt_text(attempt, max_retries, cause@),
{
    let mut message = String::from_str("Attempt ");
    push_decimal(&mut message, attempt as u64);
    message.append("/");
    push_decimal(&mut message, max_retries as u64);
    message.append(": ");
    message.append(cause);
    message
}

} // verus!
