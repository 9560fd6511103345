//! The dynamic-yield engine: a pure map from a merchant's performance
//! metrics to an annualized yield rate in basis points.
//!
//! The rate is `300` base, plus a volume bonus that ramps linearly to `600`
//! at $1,000,000 of monthly volume (micro-units, 6 implied decimals), plus a
//! loyalty bonus that ramps linearly to `300` at 365 days held. The total is
//! therefore always in `300..=1200`.

use vstd::prelude::*;

verus! {

use vstd::arithmetic::div_mod::{lemma_div_is_ordered, lemma_multiply_divide_lt};
use vstd::arithmetic::mul::lemma_mul_inequality;

/// Volume at which the volume bonus reaches its cap: $1M in micro-units.
pub const VOLUME_RAMP_CAP: u64 = 1_000_000_000000;

/// Tenure at which the loyalty bonus reaches its cap.
pub const LOYALTY_RAMP_CAP_DAYS: i64 = 365;

/// Volume bonus in basis points: a linear ramp from 0 to 600 over
/// `0..VOLUME_RAMP_CAP` of monthly volume.
pub open spec fn spec_volume_bonus(monthly_volume_usd: u64) -> int {
    if monthly_volume_usd >= VOLUME_RAMP_CAP {
        600
    } else {
        (monthly_volume_usd * 600) / (VOLUME_RAMP_CAP as int)
    }
}

/// Loyalty bonus in basis points: a linear ramp from 0 to 300 over
/// `0..365` days of tenure. A tenure before the deposit instant (which a
/// well-behaved clock never reports) earns nothing.
pub open spec fn spec_loyalty_bonus(days_deposited: int) -> int {
    if days_deposited >= LOYALTY_RAMP_CAP_DAYS {
        300
    } else if days_deposited < 0 {
        0
    } else {
        (days_deposited * 300) / 365
    }
}

/// The dynamic yield rate in basis points.
pub open spec fn spec_dynamic_yield(monthly_volume_usd: u64, days_deposited: int) -> int {
    300 + spec_volume_bonus(monthly_volume_usd) + spec_loyalty_bonus(days_deposited)
}

/// The volume bonus stays within its cap.
pub proof fn lemma_volume_bonus_bounds(monthly_volume_usd: u64)
    ensures
        0 <= spec_volume_bonus(monthly_volume_usd) <= 600,
        monthly_volume_usd < VOLUME_RAMP_CAP ==> spec_volume_bonus(monthly_volume_usd) < 600,
{
    if monthly_volume_usd < VOLUME_RAMP_CAP {
        lemma_div_is_ordered(0, monthly_volume_usd * 600, VOLUME_RAMP_CAP as int);
        lemma_multiply_divide_lt(
            monthly_volume_usd * 600,
            VOLUME_RAMP_CAP as int,
            600,
        );
        assert(monthly_volume_usd * 600 < (VOLUME_RAMP_CAP as int) * 600) by (nonlinear_arith)
            requires monthly_volume_usd < VOLUME_RAMP_CAP;
    }
}

/// The loyalty bonus stays within its cap.
pub proof fn lemma_loyalty_bonus_bounds(days_deposited: int)
    ensures
        0 <= spec_loyalty_bonus(days_deposited) <= 300,
        days_deposited < LOYALTY_RAMP_CAP_DAYS ==> spec_loyalty_bonus(days_deposited) < 300,
{
    if 0 <= days_deposited < LOYALTY_RAMP_CAP_DAYS {
        lemma_div_is_ordered(0, days_deposited * 300, 365);
        lemma_multiply_divide_lt(days_deposited * 300, 365, 300);
        assert(days_deposited * 300 < 365 * 300) by (nonlinear_arith)
            requires days_deposited < 365;
    }
}

/// The yield rate always lies in `300..=1200`.
pub proof fn lemma_yield_bounds(monthly_volume_usd: u64, days_deposited: int)
    ensures
        300 <= spec_dynamic_yield(monthly_volume_usd, days_deposited) <= 1200,
{
    lemma_volume_bonus_bounds(monthly_volume_usd);
    lemma_loyalty_bonus_bounds(days_deposited);
}

/// The yield rate is non-decreasing in both monthly volume and tenure.
pub proof fn lemma_yield_monotone(v1: u64, d1: int, v2: u64, d2: int)
    requires
        v1 <= v2,
        d1 <= d2,
    ensures
        spec_dynamic_yield(v1, d1) <= spec_dynamic_yield(v2, d2),
{
    lemma_volume_bonus_bounds(v1);
    lemma_volume_bonus_bounds(v2);
    if v2 < VOLUME_RAMP_CAP {
        lemma_mul_inequality(v1 as int, v2 as int, 600);
        lemma_div_is_ordered(v1 * 600, v2 * 600, VOLUME_RAMP_CAP as int);
    }
    lemma_loyalty_bonus_bounds(d1);
    lemma_loyalty_bonus_bounds(d2);
    if 0 <= d1 && d2 < LOYALTY_RAMP_CAP_DAYS {
        lemma_mul_inequality(d1, d2, 300);
        lemma_div_is_ordered(d1 * 300, d2 * 300, 365);
    }
}

/// The yield rate is exactly 1200 precisely when both ramps are at their
/// caps: monthly volume at least $1M and tenure at least 365 days.
pub proof fn lemma_yield_max(monthly_volume_usd: u64, days_deposited: int)
    ensures
        spec_dynamic_yield(monthly_volume_usd, days_deposited) == 1200
            <==> (monthly_volume_usd >= VOLUME_RAMP_CAP
                  && days_deposited >= LOYALTY_RAMP_CAP_DAYS),
{
    lemma_volume_bonus_bounds(monthly_volume_usd);
    lemma_loyalty_bonus_bounds(days_deposited);
}

/// Map performance metrics to the dynamic yield rate in basis points.
pub fn calculate_dynamic_yield(monthly_volume_usd: u64, days_deposited: i64) -> (bps: u16)
    ensures
        bps == spec_dynamic_yield(monthly_volume_usd, days_deposited as int),
        300 <= bps <= 1200,
{
    proof {
        lemma_volume_bonus_bounds(monthly_volume_usd);
        lemma_loyalty_bonus_bounds(days_deposited as int);
    }
    let volume_bonus_bps: u16 = if monthly_volume_usd >= VOLUME_RAMP_CAP {
        600
    } else {
        let ratio: u128 = (monthly_volume_usd as u128) * 600 / (VOLUME_RAMP_CAP as u128);
        ratio as u16
    };
    let loyalty_bonus_bps: u16 = if days_deposited >= LOYALTY_RAMP_CAP_DAYS {
        300
    } else if days_deposited < 0 {
        0
    } else {
        let ratio: u64 = (days_deposited as u64) * 300 / 365;
        ratio as u16
    };
    300 + volume_bonus_bps + loyalty_bonus_bps
}

} // verus!
