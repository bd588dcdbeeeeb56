//! Restart and recovery backoff policy.
//!
//! Both the process supervisor and the liveness monitor wait an exponentially
//! growing delay before consecutive attempts: attempt `k` waits
//! `min(BASE * 2^(k-1), CAP)` seconds.

use vstd::prelude::*;

verus! {

/// Maximum supervised restart attempts per disconnect episode.
pub const APP_SERVER_MAX_RESTART_ATTEMPTS: u32 = 3;
/// Restarts allowed inside the sliding window before the supervisor pauses.
pub const APP_SERVER_MAX_RESTARTS_PER_WINDOW: usize = 5;
/// Width of the sliding restart window, in seconds.
pub const APP_SERVER_RESTART_WINDOW_SECS: u64 = 300;
/// Base delay of the supervisor's backoff, in seconds.
pub const APP_SERVER_BACKOFF_BASE_SECS: u64 = 1;
/// Cap of the supervisor's backoff, in seconds.
pub const APP_SERVER_BACKOFF_MAX_SECS: u64 = 30;

/// A UI surface that was ready but has sent no heartbeat for this long is
/// considered stalled, in seconds.
pub const RENDERER_HEARTBEAT_TIMEOUT_SECS: u64 = 20;
/// Interval of the liveness monitor's periodic check, in seconds.
pub const RENDERER_MONITOR_INTERVAL_SECS: u64 = 5;
/// Maximum recovery attempts for one unresolved stall episode.
pub const RENDERER_MAX_RECOVERY_ATTEMPTS: u32 = 3;
/// Base delay of the recovery backoff, in seconds.
pub const RENDERER_RECOVERY_BASE_SECS: u64 = 2;
/// Cap of the recovery backoff, in seconds.
pub const RENDERER_RECOVERY_MAX_SECS: u64 = 30;

/// 2 to the power `k`.
pub open spec fn pow2(k: nat) -> nat
    decreases k,
{
    if k == 0 {
        1
    } else {
        2 * pow2((k - 1) as nat)
    }
}

/// The smaller of two naturals.
pub open spec fn min_nat(a: nat, b: nat) -> nat {
    if a <= b {
        a
    } else {
        b
    }
}

/// Delay before attempt number `attempt`, for a policy with the given base
/// and cap: `min(base * 2^(attempt-1), cap)` seconds. Attempt numbers start
/// at 1; an (out-of-protocol) attempt number 0 is treated like attempt 1.
pub open spec fn backoff_spec(base: nat, attempt: nat, cap: nat) -> nat {
    let k = if attempt == 0 {
        0
    } else {
        (attempt - 1) as nat
    };
    min_nat(base * pow2(k), cap)
}

proof fn lemma_pow2_monotonic(i: nat, j: nat)
    requires
        i <= j,
    ensures
        pow2(i) <= pow2(j),
    decreases j,
{
    if i < j {
        lemma_pow2_monotonic(i, (j - 1) as nat);
    }
}

/// `min(base * 2^(attempt-1), cap)`, saturating rather than overflowing.
fn backoff_secs(base: u64, attempt: u32, cap: u64) -> (r: u64)
    requires
        1 <= base,
        base <= cap,
        cap <= 0x7fff_ffff_ffff_ffff,
    ensures
        r == backoff_spec(base as nat, attempt as nat, cap as nat),
{
    let k: u32 = if attempt == 0 {
        0
    } else {
        attempt - 1
    };
    let mut factor: u64 = 1;
    let mut i: u32 = 0;
    while i < k
        invariant
            i <= k,
            factor == pow2(i as nat),
            factor >= 1,
            base * factor <= cap,
            1 <= base <= cap <= 0x7fff_ffff_ffff_ffff,
            backoff_spec(base as nat, attempt as nat, cap as nat) == min_nat(
                (base as nat) * pow2(k as nat),
                cap as nat,
            ),
        decreases k - i,
    {
        proof {
            assert(factor <= cap && 2 * (base * factor) <= 2 * cap && base * (2 * factor) == 2 * (
            base * factor)) by (nonlinear_arith)
                requires
                    1 <= base,
                    base * factor <= cap,
                    factor >= 1,
            ;
        }
        if base * (2 * factor) > cap {
            proof {
                lemma_pow2_monotonic((i + 1) as nat, k as nat);
                assert(pow2((i + 1) as nat) == 2 * pow2(i as nat));
                assert(base * pow2(k as nat) >= base * pow2((i + 1) as nat)) by (nonlinear_arith)
                    requires
                        base >= 1,
                        pow2(k as nat) >= pow2((i + 1) as nat),
                ;
            }
            return cap;
        }
        factor = 2 * factor;
        i = i + 1;
    }
    base * factor
}

/// Delay, in seconds, before supervised restart attempt `attempt`:
/// `min(2^(attempt-1), 30)`, so attempts 1, 2, 3 wait 1, 2 and 4 seconds.
pub fn app_server_backoff(attempt: u32) -> (r: u64)
    ensures
        r == backoff_spec(
            APP_SERVER_BACKOFF_BASE_SECS as nat,
            attempt as nat,
            APP_SERVER_BACKOFF_MAX_SECS as nat,
        ),
        attempt >= 1 ==> r == min_nat(pow2((attempt - 1) as nat), 30),
{
    backoff_secs(APP_SERVER_BACKOFF_BASE_SECS, attempt, APP_SERVER_BACKOFF_MAX_SECS)
}

/// Delay, in seconds, before UI recovery attempt `attempt`:
/// `min(2 * 2^(attempt-1), 30)`, so attempts 1, 2, 3 wait 2, 4 and 8 seconds.
pub fn renderer_recovery_backoff(attempt: u32) -> (r: u64)
    ensures
        r == backoff_spec(
            RENDERER_RECOVERY_BASE_SECS as nat,
            attempt as nat,
            RENDERER_RECOVERY_MAX_SECS as nat,
        ),
        attempt >= 1 ==> r == min_nat(2 * pow2((attempt - 1) as nat), 30),
{
    backoff_secs(RENDERER_RECOVERY_BASE_SECS, attempt, RENDERER_RECOVERY_MAX_SECS)
}

} // verus!
