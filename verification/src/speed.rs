//! Derives the animation interval from a CPU utilization reading.
//!
//! The design formula is `interval = BASE / clamp(usage / SCALE, MIN_SPEED,
//! MAX_SPEED)` with `BASE = 200 ms`, `SCALE = 5`, `MIN_SPEED = 1` and
//! `MAX_SPEED = 20`: higher utilization gives a larger divisor and a shorter
//! interval. Usage is carried in hundredths of a percent and the interval in
//! microseconds, so the clamp bounds become `SLOW_USAGE_CENTI = 500`
//! (usage at or below 5% runs at the slowest rate, 200 ms) and
//! `FAST_USAGE_CENTI = 10_000` (usage at or above 100% runs at the fastest
//! rate, 10 ms). Between the bounds the interval is
//! `BASE_INTERVAL_US * SCALE_CENTI / usage_centi`, truncated to whole
//! microseconds.

use vstd::prelude::*;

verus! {

/// Slowest animation interval: 200 ms, used at and below `SLOW_USAGE_CENTI`.
pub const BASE_INTERVAL_US: u64 = 200_000;

/// Fastest animation interval: 10 ms, used at and above `FAST_USAGE_CENTI`.
pub const MIN_INTERVAL_US: u64 = 10_000;

/// The speed scale in hundredths of a percent: a speed divisor of 1 per 5%.
pub const SCALE_CENTI: u64 = 500;

/// Usage at or below 5% clamps the speed divisor to its minimum of 1.
pub const SLOW_USAGE_CENTI: u32 = 500;

/// Usage at or above 100% clamps the speed divisor to its maximum of 20.
pub const FAST_USAGE_CENTI: u32 = 10_000;

/// The interval, in microseconds, for a utilization reading in hundredths of
/// a percent: 200 ms at or below 5%, 10 ms at or above 100%, and
/// `200_000 * 500 / centi` microseconds in between.
pub open spec fn interval_us_spec(centi: nat) -> nat {
    if centi <= SLOW_USAGE_CENTI {
        BASE_INTERVAL_US as nat
    } else if centi >= FAST_USAGE_CENTI {
        MIN_INTERVAL_US as nat
    } else {
        (BASE_INTERVAL_US * SCALE_CENTI) as nat / centi
    }
}

/// Every derived interval lies between the fastest and the slowest rate.
pub proof fn lemma_interval_us_bounds(centi: nat)
    ensures
        MIN_INTERVAL_US <= interval_us_spec(centi) <= BASE_INTERVAL_US,
{
    if SLOW_USAGE_CENTI < centi < FAST_USAGE_CENTI {
        vstd::arithmetic::div_mod::lemma_div_is_ordered_by_denominator(
            100_000_000,
            501,
            centi as int,
        );
        vstd::arithmetic::div_mod::lemma_div_is_ordered_by_denominator(
            100_000_000,
            centi as int,
            9_999,
        );
    }
}

/// Any utilization reading at or below the lower clamp bound, 5%, gives
/// exactly the base interval of 200 ms.
pub proof fn lemma_slow_clamp(centi: nat)
    requires
        centi <= SLOW_USAGE_CENTI,
    ensures
        interval_us_spec(centi) == BASE_INTERVAL_US,
{
}

/// Any utilization reading above 100%, which a faulty sampler could produce,
/// gives exactly the fastest interval of 10 ms.
pub proof fn lemma_fast_clamp(centi: nat)
    requires
        centi > FAST_USAGE_CENTI,
    ensures
        interval_us_spec(centi) == MIN_INTERVAL_US,
{
}

/// Computes the animation interval in microseconds from a utilization reading
/// in hundredths of a percent.
pub fn interval_us_from_usage(usage_centi: u32) -> (r: u64)
    ensures
        r == interval_us_spec(usage_centi as nat),
        MIN_INTERVAL_US <= r <= BASE_INTERVAL_US,
{
    proof {
        lemma_interval_us_bounds(usage_centi as nat);
    }
    if usage_centi <= SLOW_USAGE_CENTI {
        BASE_INTERVAL_US
    } else if usage_centi >= FAST_USAGE_CENTI {
        MIN_INTERVAL_US
    } else {
        (BASE_INTERVAL_US * SCALE_CENTI) / (usage_centi as u64)
    }
}

} // verus!
