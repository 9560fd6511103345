//! The tier classifier: a pure map from monthly volume and tenure to a
//! discrete performance tier. Each tier above Bronze requires **both** its
//! volume threshold and its tenure threshold; the highest satisfied tier
//! wins.

use vstd::prelude::*;

verus! {

pub const TIER_BRONZE: u8 = 0;
pub const TIER_SILVER: u8 = 1;
pub const TIER_GOLD: u8 = 2;
pub const TIER_PLATINUM: u8 = 3;

/// Monthly volume thresholds, USD micro-units.
pub const VOLUME_SILVER: u64 = 10_000_000000;
pub const VOLUME_GOLD: u64 = 50_000_000000;
pub const VOLUME_PLATINUM: u64 = 200_000_000000;

/// Tenure thresholds, whole days.
pub const DAYS_SILVER: i64 = 90;
pub const DAYS_GOLD: i64 = 180;
pub const DAYS_PLATINUM: i64 = 365;

/// Whole days elapsed between two clock readings (integer truncation).
pub open spec fn spec_days_elapsed(deposited_at: i64, now: i64) -> int {
    (now - deposited_at) / 86400
}

/// The tier for a given monthly volume and tenure.
pub open spec fn spec_merchant_tier(monthly_volume_usd: u64, days_deposited: int) -> u8 {
    if monthly_volume_usd >= VOLUME_PLATINUM && days_deposited >= DAYS_PLATINUM {
        TIER_PLATINUM
    } else if monthly_volume_usd >= VOLUME_GOLD && days_deposited >= DAYS_GOLD {
        TIER_GOLD
    } else if monthly_volume_usd >= VOLUME_SILVER && days_deposited >= DAYS_SILVER {
        TIER_SILVER
    } else {
        TIER_BRONZE
    }
}

/// Each tier above Bronze demands the conjunction of its volume and tenure
/// thresholds; in particular a merchant below Silver tenure is Bronze no
/// matter how large its volume, and likewise for a volume below the Silver
/// floor.
pub proof fn lemma_tier_requires_both(monthly_volume_usd: u64, days_deposited: int)
    ensures
        spec_merchant_tier(monthly_volume_usd, days_deposited) >= TIER_SILVER
            ==> monthly_volume_usd >= VOLUME_SILVER && days_deposited >= DAYS_SILVER,
        spec_merchant_tier(monthly_volume_usd, days_deposited) >= TIER_GOLD
            ==> monthly_volume_usd >= VOLUME_GOLD && days_deposited >= DAYS_GOLD,
        spec_merchant_tier(monthly_volume_usd, days_deposited) == TIER_PLATINUM
            <==> monthly_volume_usd >= VOLUME_PLATINUM && days_deposited >= DAYS_PLATINUM,
        days_deposited < DAYS_SILVER
            ==> spec_merchant_tier(monthly_volume_usd, days_deposited) == TIER_BRONZE,
        monthly_volume_usd < VOLUME_SILVER
            ==> spec_merchant_tier(monthly_volume_usd, days_deposited) == TIER_BRONZE,
{
}

/// Classify a merchant by monthly volume and tenure between the first
/// deposit and `current_time`.
pub fn calculate_merchant_tier(
    monthly_volume_usd: u64,
    deposited_at: i64,
    current_time: i64,
) -> (tier: u8)
    requires
        deposited_at <= current_time,
        current_time - deposited_at <= i64::MAX,
    ensures
        tier == spec_merchant_tier(
            monthly_volume_usd,
            spec_days_elapsed(deposited_at, current_time),
        ),
        tier <= TIER_PLATINUM,
{
    let elapsed: u64 = (current_time - deposited_at) as u64;
    let days_deposited: u64 = elapsed / 86400;
    if monthly_volume_usd >= VOLUME_PLATINUM && days_deposited >= DAYS_PLATINUM as u64 {
        TIER_PLATINUM
    } else if monthly_volume_usd >= VOLUME_GOLD && days_deposited >= DAYS_GOLD as u64 {
        TIER_GOLD
    } else if monthly_volume_usd >= VOLUME_SILVER && days_deposited >= DAYS_SILVER as u64 {
        TIER_SILVER
    } else {
        TIER_BRONZE
    }
}

/// The display name of a tier.
pub fn tier_name(tier: u8) -> (name: &'static str)
    ensures
        tier == TIER_BRONZE ==> name@ == "Bronze"@,
        tier == TIER_SILVER ==> name@ == "Silver"@,
        tier == TIER_GOLD ==> name@ == "Gold"@,
        tier == TIER_PLATINUM ==> name@ == "Platinum"@,
        tier > TIER_PLATINUM ==> name@ == "Unknown"@,
{
    match tier {
        0 => "Bronze",
        1 => "Silver",
        2 => "Gold",
        3 => "Platinum",
        _ => "Unknown",
    }
}

} // verus!
