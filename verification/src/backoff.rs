//! Restart backoff: how long the supervisor waits before it starts a crashed
//! program again.
use vstd::prelude::*;

verus! {

/// No restart waits longer than five minutes.
pub const MAX_RESTART_DELAY_MS: u64 = 300_000;

/// The configured throttle is raised to at least one second before doubling.
pub const MIN_THROTTLE_MS: u64 = 1000;

/// `2` raised to the power `n`.
pub open spec fn two_pow(n: nat) -> nat
    decreases n,
{
    if n == 0 {
        1
    } else {
        2 * two_pow((n - 1) as nat)
    }
}

/// The base of the backoff: the configured throttle, but never under one second.
pub open spec fn backoff_base(throttle_ms: u32) -> int {
    if throttle_ms < MIN_THROTTLE_MS {
        MIN_THROTTLE_MS as int
    } else {
        throttle_ms as int
    }
}

/// The delay before restart attempt number `attempts + 1`: the base doubled once per
/// earlier attempt, capped at five minutes.
pub open spec fn restart_delay(throttle_ms: u32, attempts: u32) -> int {
    let raw: int = backoff_base(throttle_ms) * two_pow(attempts as nat);
    if raw < MAX_RESTART_DELAY_MS {
        raw
    } else {
        MAX_RESTART_DELAY_MS as int
    }
}

/// Powers of two grow with the exponent.
pub proof fn lemma_two_pow_monotone(i: nat, j: nat)
    requires
        i <= j,
    ensures
        1 <= two_pow(i) <= two_pow(j),
    decreases j,
{
    if j > i {
        lemma_two_pow_monotone(i, (j - 1) as nat);
    } else if i > 0 {
        lemma_two_pow_monotone((i - 1) as nat, (i - 1) as nat);
    }
}

proof fn lemma_scaled_monotone(base: int, i: nat, j: nat)
    requires
        base >= 0,
        i <= j,
    ensures
        base <= base * two_pow(i) <= base * two_pow(j),
{
    lemma_two_pow_monotone(i, j);
    let a: int = two_pow(i) as int;
    let b: int = two_pow(j) as int;
    assert(base <= base * a <= base * b) by (nonlinear_arith)
        requires
            base >= 0,
            1 <= a <= b,
    ;
}

/// Computes the wait before the next restart, given the throttle setting and the
/// number of restart attempts made since the program last ran steadily.
pub fn restart_delay_ms(throttle_ms: u32, attempts: u32) -> (delay: u64)
    ensures
        delay == restart_delay(throttle_ms, attempts),
{
    let base: u64 = if throttle_ms < 1000 {
        MIN_THROTTLE_MS
    } else {
        throttle_ms as u64
    };
    let mut delay: u64 = base;
    let mut i: u32 = 0;
    assert(two_pow(0) == 1);
    while i < attempts && delay < MAX_RESTART_DELAY_MS
        invariant
            i <= attempts,
            base == backoff_base(throttle_ms),
            delay == base * two_pow(i as nat),
            delay < 2 * MAX_RESTART_DELAY_MS || i == 0,
        decreases attempts - i,
    {
        let ghost p: int = two_pow(i as nat) as int;
        assert(2 * (base * p) == base * (2 * p)) by (nonlinear_arith);
        delay = delay * 2;
        i = i + 1;
        assert(two_pow(i as nat) == 2 * p);
    }
    proof {
        lemma_scaled_monotone(base as int, i as nat, attempts as nat);
    }
    if delay < MAX_RESTART_DELAY_MS {
        delay
    } else {
        MAX_RESTART_DELAY_MS
    }
}

/// Every restart waits at least one second and at most five minutes.
pub proof fn law_restart_delay_bounded(throttle_ms: u32, attempts: u32)
    ensures
        MIN_THROTTLE_MS <= restart_delay(throttle_ms, attempts) <= MAX_RESTART_DELAY_MS,
{
    lemma_scaled_monotone(backoff_base(throttle_ms), 0, attempts as nat);
}

/// The first restart waits the throttle itself (at least one second, at most five minutes).
pub proof fn law_first_restart_waits_throttle(throttle_ms: u32)
    ensures
        restart_delay(throttle_ms, 0) == if backoff_base(throttle_ms) < MAX_RESTART_DELAY_MS {
            backoff_base(throttle_ms)
        } else {
            MAX_RESTART_DELAY_MS as int
        },
{
    assert(two_pow(0) == 1);
}

/// Each further failed attempt doubles the wait, until the five-minute cap is reached.
pub proof fn law_backoff_doubles(throttle_ms: u32, attempts: u32)
    requires
        attempts < u32::MAX,
    ensures
        restart_delay(throttle_ms, (attempts + 1) as u32) == if 2 * restart_delay(
            throttle_ms,
            attempts,
        ) < MAX_RESTART_DELAY_MS {
            2 * restart_delay(throttle_ms, attempts)
        } else {
            MAX_RESTART_DELAY_MS as int
        },
{
    let b: int = backoff_base(throttle_ms);
    let p: int = two_pow(attempts as nat) as int;
    assert(two_pow((attempts + 1) as nat) == 2 * p);
    assert(b * (2 * p) == 2 * (b * p)) by (nonlinear_arith);
}

/// Waits never shrink as attempts accumulate.
pub proof fn law_backoff_monotone(throttle_ms: u32, fewer: u32, more: u32)
    requires
        fewer <= more,
    ensures
        restart_delay(throttle_ms, fewer) <= restart_delay(throttle_ms, more),
{
    let b: int = backoff_base(throttle_ms);
    lemma_two_pow_monotone(fewer as nat, more as nat);
    let a: int = two_pow(fewer as nat) as int;
    let c: int = two_pow(more as nat) as int;
    assert(b * a <= b * c) by (nonlinear_arith)
        requires
            b >= 0,
            a <= c,
    ;
}

} // verus!
