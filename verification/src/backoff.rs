//! Reconnection scheduler: truncated exponential backoff with a bounded
//! random part.
//!
//! The wait before attempt `n + 1` is `2^n` seconds plus up to one second of
//! jitter, capped by a ceiling. The jitter is an input: whoever owns a source
//! of randomness draws it and hands it in, so every delay is a function of its
//! arguments.

use vstd::arithmetic::power2::{lemma2_to64, lemma_pow2_strictly_increases, lemma_pow2_unfold, pow2};
use vstd::prelude::*;

verus! {

/// Ceiling of the reconnect delay, in seconds, where none is asked for.
pub const DEFAULT_MAX_SECONDS: u32 = 32;

/// Largest random part of a delay, in milliseconds.
pub const MAX_JITTER_MS: u32 = 1000;

/// The delay of the first attempt is never below this, in milliseconds.
pub const FLOOR_MS: u32 = 1000;

/// Ceiling of the delays that `schedule` hands out, in milliseconds.
pub const CEILING_MS: u32 = 32000;

/// The smaller of two naturals.
pub open spec fn least(a: nat, b: nat) -> nat {
    if a <= b {
        a
    } else {
        b
    }
}

/// The ceiling in milliseconds that `max_seconds` stands for: the seconds
/// times a thousand, or the largest `u32` where that does not fit.
pub open spec fn ceiling_ms(max_seconds: nat) -> nat {
    least(max_seconds * 1000, u32::MAX as nat)
}

/// The delay in milliseconds after `retries` earlier attempts: `2^retries`
/// seconds plus the jitter (of which at most `MAX_JITTER_MS` count), cut off
/// at the ceiling.
pub open spec fn wait_time_ms(retries: nat, jitter_ms: nat, max_seconds: nat) -> nat {
    least(
        pow2(retries) * 1000 + least(jitter_ms, MAX_JITTER_MS as nat),
        ceiling_ms(max_seconds),
    )
}

/// The retry count after one more attempt was scheduled. It stops at the
/// largest value of its type: attempts are never given up.
pub open spec fn next_retry_count(retry_count: usize) -> usize {
    if retry_count < usize::MAX {
        (retry_count + 1) as usize
    } else {
        retry_count
    }
}

/// The delay before the next attempt, in milliseconds.
pub fn wait_time(retries: usize, jitter_ms: u32, max_seconds: u32) -> (delay: u32)
    ensures
        delay == wait_time_ms(retries as nat, jitter_ms as nat, max_seconds as nat),
{
    let jitter: u64 = if jitter_ms > MAX_JITTER_MS {
        MAX_JITTER_MS as u64
    } else {
        jitter_ms as u64
    };
    let cap: u64 = max_seconds as u64 * 1000;
    let limit: u64 = if cap < u32::MAX as u64 {
        cap
    } else {
        u32::MAX as u64
    };
    let mut base: u64 = 1000;
    let mut done: usize = 0;
    proof {
        lemma2_to64();
    }
    while done < retries && base < limit
        invariant
            done <= retries,
            base == pow2(done as nat) * 1000,
            base <= 2 * limit || done == 0,
            limit <= u32::MAX,
        decreases retries - done,
    {
        proof {
            lemma_pow2_unfold((done + 1) as nat);
        }
        base = base * 2;
        done = done + 1;
    }
    proof {
        if done < retries {
            lemma_pow2_strictly_increases(done as nat, retries as nat);
        }
    }
    let total: u64 = base + jitter;
    if total < limit {
        total as u32
    } else {
        limit as u32
    }
}

/// Schedules the next reconnect attempt: the delay to wait, in milliseconds,
/// and the retry count to keep afterwards.
pub fn schedule(retry_count: usize, jitter_ms: u32) -> (planned: (u32, usize))
    ensures
        planned.0 == wait_time_ms(
            retry_count as nat,
            jitter_ms as nat,
            DEFAULT_MAX_SECONDS as nat,
        ),
        planned.1 == next_retry_count(retry_count),
        FLOOR_MS <= planned.0 <= CEILING_MS,
{
    let delay: u32 = wait_time(retry_count, jitter_ms, DEFAULT_MAX_SECONDS);
    let next: usize = if retry_count < usize::MAX {
        retry_count + 1
    } else {
        retry_count
    };
    proof {
        lemma_delay_bounds(retry_count as nat, jitter_ms as nat);
    }
    (delay, next)
}

/// Every delay lies between the floor and the ceiling.
pub proof fn lemma_delay_bounds(retries: nat, jitter_ms: nat)
    ensures
        FLOOR_MS <= wait_time_ms(retries, jitter_ms, DEFAULT_MAX_SECONDS as nat) <= CEILING_MS,
{
    lemma2_to64();
    if retries > 0 {
        lemma_pow2_strictly_increases(0, retries);
    }
}

/// The delays never shrink from one attempt to the next, whatever the two
/// jitters are, and never pass the ceiling.
pub proof fn lemma_delay_non_decreasing(
    retries: nat,
    jitter_ms: nat,
    next_jitter_ms: nat,
    max_seconds: nat,
)
    ensures
        wait_time_ms(retries, jitter_ms, max_seconds) <= wait_time_ms(
            retries + 1,
            next_jitter_ms,
            max_seconds,
        ),
        wait_time_ms(retries + 1, next_jitter_ms, max_seconds) <= ceiling_ms(max_seconds),
        ceiling_ms(max_seconds) <= max_seconds * 1000,
{
    lemma2_to64();
    lemma_pow2_unfold(retries + 1);
    if retries > 0 {
        lemma_pow2_strictly_increases(0, retries);
    }
}

/// From the sixth attempt on the delay is the ceiling of 32 seconds.
pub proof fn lemma_ceiling_reached(retries: nat, jitter_ms: nat)
    requires
        retries >= 5,
    ensures
        wait_time_ms(retries, jitter_ms, DEFAULT_MAX_SECONDS as nat) == CEILING_MS,
{
    lemma2_to64();
    if retries > 5 {
        lemma_pow2_strictly_increases(5, retries);
    }
}

} // verus!
