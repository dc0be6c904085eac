//! Login-throttle policy: how long an email is locked after N consecutive
//! failed logins. A pure function of the failure count.

use vstd::prelude::*;
use vstd::arithmetic::power2::{pow2, lemma2_to64, lemma_pow2_strictly_increases};
use vstd::bits::lemma_u64_shl_is_mul;

verus! {

/// Failures 1..=FREE_FAILURES trigger no lock.
pub const FREE_FAILURES: u32 = 4;

/// Lock after the first over-limit failure, in seconds.
pub const FIRST_LOCK_SECS: u64 = 60;

/// Locks double per further failure, capped here (15 minutes). There is no
/// permanent lockout.
pub const MAX_LOCK_SECS: u64 = 900;

/// The lock (in seconds) after `failed_count` consecutive failures: none in the
/// free band, then 60 s doubling per failure, capped at 900 s.
pub open spec fn lock_secs_spec(failed_count: u32) -> Option<u64> {
    if failed_count <= FREE_FAILURES {
        None
    } else {
        let doubled = FIRST_LOCK_SECS * pow2((failed_count - FREE_FAILURES - 1) as nat);
        Some(if doubled < MAX_LOCK_SECS { doubled as u64 } else { MAX_LOCK_SECS })
    }
}

/// How long (in seconds) the account is locked after `failed_count`
/// consecutive failures, or `None` while the count is in the free band.
pub fn lock_duration(failed_count: u32) -> (r: Option<u64>)
    ensures
        r == lock_secs_spec(failed_count),
{
    let over = match failed_count.checked_sub(FREE_FAILURES + 1) {
        Some(o) => o,
        None => return None,
    };
    let secs = if over >= 32 {
        proof {
            lemma2_to64();
            if over > 32 {
                lemma_pow2_strictly_increases(32, over as nat);
            }
        }
        MAX_LOCK_SECS
    } else {
        proof {
            lemma2_to64();
            if over < 31 {
                lemma_pow2_strictly_increases(over as nat, 31);
            }
            lemma_u64_shl_is_mul(FIRST_LOCK_SECS, over as u64);
        }
        let doubled = FIRST_LOCK_SECS << (over as u64);
        if doubled < MAX_LOCK_SECS { doubled } else { MAX_LOCK_SECS }
    };
    Some(secs)
}


/// The lock never shrinks as failures accumulate, never exceeds 15 minutes,
/// and every count past the free band locks: the curve is monotone and
/// bounded, so there is no permanent lockout.
pub proof fn lemma_lock_curve(a: u32, b: u32)
    requires
        a <= b,
    ensures
        lock_secs_spec(a) matches Some(x) ==> (lock_secs_spec(b) matches Some(y) && x <= y),
        lock_secs_spec(b) matches Some(y) ==> FIRST_LOCK_SECS <= y <= MAX_LOCK_SECS,
        b > FREE_FAILURES ==> lock_secs_spec(b) is Some,
{
    if a > FREE_FAILURES {
        let ea = (a - FREE_FAILURES - 1) as nat;
        let eb = (b - FREE_FAILURES - 1) as nat;
        if ea < eb {
            lemma_pow2_strictly_increases(ea, eb);
        }
        assert(FIRST_LOCK_SECS * pow2(ea) <= FIRST_LOCK_SECS * pow2(eb)) by (nonlinear_arith)
            requires
                pow2(ea) <= pow2(eb),
        ;
    }
    if b > FREE_FAILURES {
        let eb = (b - FREE_FAILURES - 1) as nat;
        if eb > 0 {
            lemma_pow2_strictly_increases(0, eb);
        }
        lemma2_to64();
        assert(FIRST_LOCK_SECS * pow2(eb) >= FIRST_LOCK_SECS) by (nonlinear_arith)
            requires
                pow2(eb) >= 1,
        ;
    }
}

} // verus!
