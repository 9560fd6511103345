//! The state-transition operations: initialize, deposit, record-order,
//! withdraw, configuration update, and the read-only queries.
//!
//! Each operation has a spec-level transition function giving the new state
//! and the outcome for every input, and an executable twin proved equal to
//! it. Fund movement is the caller's job: a successful deposit is applied
//! after the caller has pulled `amount` into custody, and a successful
//! withdrawal returns the exact payout the caller must move out. An error
//! leaves every record unchanged, so a caller that aborts on error performs
//! no partial update.

use vstd::prelude::*;

verus! {

use crate::errors::VaultError;
use crate::state::{AccountId, DepositType, MerchantDeposit, Vault};
use crate::tier::{spec_days_elapsed, spec_merchant_tier, calculate_merchant_tier};
use crate::yield_engine::{spec_dynamic_yield, calculate_dynamic_yield, lemma_yield_bounds};

/// Default minimum native-unit deposit: 1 whole native unit.
pub const DEFAULT_MIN_DEPOSIT_SOL: u64 = 1_000_000_000;

/// Default minimum token deposit: 100 tokens at 6 decimals.
pub const DEFAULT_MIN_DEPOSIT_TOKEN: u64 = 100_000_000;

/// Default merchant share of computed rewards, basis points.
pub const DEFAULT_REWARD_SHARE_RATE: u16 = 8000;

/// Anti-gaming floor on recorded orders: $10 in micro-units.
pub const MIN_ORDER_USD: u64 = 10_000000;

/// Length of the rolling volume window, seconds (30 days).
pub const VOLUME_WINDOW_SECS: i64 = 2_592_000;

/// Yield rate a fresh deposit record starts with.
pub const BASE_YIELD_BPS: u16 = 300;

/// The registry a fresh deployment starts with.
pub open spec fn spec_initial_vault(authority: AccountId) -> Vault {
    Vault {
        authority,
        total_deposits: 0,
        total_merchants: 0,
        min_deposit_sol: DEFAULT_MIN_DEPOSIT_SOL,
        min_deposit_token: DEFAULT_MIN_DEPOSIT_TOKEN,
        reward_share_rate: DEFAULT_REWARD_SHARE_RATE,
        staking_enabled: true,
    }
}

/// Create the global vault registry with its default configuration.
pub fn initialize(authority: AccountId) -> (vault: Vault)
    ensures
        vault == spec_initial_vault(authority),
        vault.wf(),
{
    Vault {
        authority,
        total_deposits: 0,
        total_merchants: 0,
        min_deposit_sol: DEFAULT_MIN_DEPOSIT_SOL,
        min_deposit_token: DEFAULT_MIN_DEPOSIT_TOKEN,
        reward_share_rate: DEFAULT_REWARD_SHARE_RATE,
        staking_enabled: true,
    }
}

/// The configuration after an update request: present fields overwrite,
/// absent fields stay. Rejected wholesale — nothing overwritten — unless the
/// caller is the authority and any new rate is a valid fraction.
pub open spec fn spec_update_config(
    vault: Vault,
    caller: AccountId,
    min_deposit_sol: Option<u64>,
    min_deposit_token: Option<u64>,
    reward_share_rate: Option<u16>,
    staking_enabled: Option<bool>,
) -> (Vault, Result<(), VaultError>) {
    if caller != vault.authority {
        (vault, Err(VaultError::Unauthorized))
    } else if reward_share_rate matches Some(rate) && rate > 10000 {
        (vault, Err(VaultError::InvalidRate))
    } else {
        (
            Vault {
                min_deposit_sol: match min_deposit_sol {
                    Some(v) => v,
                    None => vault.min_deposit_sol,
                },
                min_deposit_token: match min_deposit_token {
                    Some(v) => v,
                    None => vault.min_deposit_token,
                },
                reward_share_rate: match reward_share_rate {
                    Some(v) => v,
                    None => vault.reward_share_rate,
                },
                staking_enabled: match staking_enabled {
                    Some(v) => v,
                    None => vault.staking_enabled,
                },
                ..vault
            },
            Ok(()),
        )
    }
}

/// Overwrite the present configuration fields, if the caller is the
/// authority and any new reward share is a valid fraction; on error the
/// registry is left untouched.
pub fn update_vault_config(
    vault: &mut Vault,
    caller: AccountId,
    min_deposit_sol: Option<u64>,
    min_deposit_token: Option<u64>,
    reward_share_rate: Option<u16>,
    staking_enabled: Option<bool>,
) -> (r: Result<(), VaultError>)
    ensures
        (*final(vault), r) == spec_update_config(
            *old(vault), caller, min_deposit_sol, min_deposit_token,
            reward_share_rate, staking_enabled,
        ),
        r is Err ==> *final(vault) == *old(vault),
        old(vault).wf() ==> final(vault).wf(),
        final(vault).authority == old(vault).authority,
{
    if caller != vault.authority {
        return Err(VaultError::Unauthorized);
    }
    if let Some(rate) = reward_share_rate {
        if rate > 10000 {
            return Err(VaultError::InvalidRate);
        }
        vault.reward_share_rate = rate;
    }
    if let Some(min_sol) = min_deposit_sol {
        vault.min_deposit_sol = min_sol;
    }
    if let Some(min_token) = min_deposit_token {
        vault.min_deposit_token = min_token;
    }
    if let Some(enabled) = staking_enabled {
        vault.staking_enabled = enabled;
    }
    Ok(())
}

/// The configured minimum deposit for an asset class.
pub open spec fn spec_min_deposit(vault: Vault, deposit_token: DepositType) -> u64 {
    match deposit_token {
        DepositType::Sol => vault.min_deposit_sol,
        DepositType::SplToken => vault.min_deposit_token,
    }
}

/// The record a first deposit creates: principal `amount`, base yield,
/// all counters zeroed, both window and tenure anchored at `now`.
pub open spec fn spec_fresh_deposit(
    merchant: AccountId,
    vault_key: AccountId,
    deposit_token: DepositType,
    amount: u64,
    now: i64,
) -> MerchantDeposit {
    MerchantDeposit {
        merchant,
        vault: vault_key,
        deposit_token,
        total_deposited: amount,
        accrued_rewards: 0,
        is_active: true,
        deposited_at: now,
        total_orders_processed: 0,
        total_volume_usd: 0,
        current_month_volume: 0,
        last_volume_reset: now,
        monthly_unique_customers: 0,
        current_yield_bps: BASE_YIELD_BPS,
    }
}

/// The deposit transition. A deposit below the configured minimum is
/// rejected; a top-up whose asset class differs from the active record's
/// class is caller misuse and rejected; otherwise a top-up grows the
/// principal by exactly `amount` (checked), and a first deposit creates a
/// fresh record. No reward accrues on a top-up.
pub open spec fn spec_deposit(
    vault: Vault,
    deposit: MerchantDeposit,
    merchant: AccountId,
    vault_key: AccountId,
    deposit_token: DepositType,
    amount: u64,
    now: i64,
) -> (MerchantDeposit, Result<(), VaultError>) {
    if amount < spec_min_deposit(vault, deposit_token) {
        (deposit, Err(VaultError::InsufficientDeposit))
    } else if deposit.is_active && deposit.deposit_token != deposit_token {
        (deposit, Err(VaultError::Unauthorized))
    } else if deposit.is_active && deposit.total_deposited + amount > u64::MAX {
        (deposit, Err(VaultError::MathOverflow))
    } else if deposit.is_active {
        (
            (MerchantDeposit {
                total_deposited: (deposit.total_deposited + amount) as u64,
                ..deposit
            }),
            Ok(()),
        )
    } else {
        (spec_fresh_deposit(merchant, vault_key, deposit_token, amount, now), Ok(()))
    }
}

/// Apply a deposit of either asset class. The caller has already moved
/// `amount` into vault custody; on error it must abort that movement.
fn apply_deposit(
    vault: &Vault,
    deposit: &mut MerchantDeposit,
    merchant: AccountId,
    vault_key: AccountId,
    deposit_token: DepositType,
    amount: u64,
    now: i64,
) -> (r: Result<(), VaultError>)
    ensures
        (*final(deposit), r) == spec_deposit(
            *vault, *old(deposit), merchant, vault_key, deposit_token, amount, now,
        ),
{
    let min = match deposit_token {
        DepositType::Sol => vault.min_deposit_sol,
        DepositType::SplToken => vault.min_deposit_token,
    };
    if amount < min {
        return Err(VaultError::InsufficientDeposit);
    }
    if deposit.is_active {
        if deposit.deposit_token != deposit_token {
            return Err(VaultError::Unauthorized);
        }
        match deposit.total_deposited.checked_add(amount) {
            Some(total) => {
                deposit.total_deposited = total;
                Ok(())
            }
            None => Err(VaultError::MathOverflow),
        }
    } else {
        deposit.merchant = merchant;
        deposit.vault = vault_key;
        deposit.deposit_token = deposit_token;
        deposit.total_deposited = amount;
        deposit.accrued_rewards = 0;
        deposit.is_active = true;
        deposit.deposited_at = now;
        deposit.total_orders_processed = 0;
        deposit.total_volume_usd = 0;
        deposit.current_month_volume = 0;
        deposit.last_volume_reset = now;
        deposit.monthly_unique_customers = 0;
        deposit.current_yield_bps = BASE_YIELD_BPS;
        Ok(())
    }
}

/// Deposit native units as collateral.
pub fn deposit_sol(
    vault: &Vault,
    deposit: &mut MerchantDeposit,
    merchant: AccountId,
    vault_key: AccountId,
    amount: u64,
    now: i64,
) -> (r: Result<(), VaultError>)
    ensures
        (*final(deposit), r) == spec_deposit(
            *vault, *old(deposit), merchant, vault_key, DepositType::Sol, amount, now,
        ),
        r is Err ==> *final(deposit) == *old(deposit),
        r is Ok ==> final(deposit).is_active,
        old(deposit).wf() ==> final(deposit).wf(),
{
    apply_deposit(vault, deposit, merchant, vault_key, DepositType::Sol, amount, now)
}

/// Deposit fungible tokens as collateral.
pub fn deposit_token(
    vault: &Vault,
    deposit: &mut MerchantDeposit,
    merchant: AccountId,
    vault_key: AccountId,
    amount: u64,
    now: i64,
) -> (r: Result<(), VaultError>)
    ensures
        (*final(deposit), r) == spec_deposit(
            *vault, *old(deposit), merchant, vault_key, DepositType::SplToken, amount, now,
        ),
        r is Err ==> *final(deposit) == *old(deposit),
        r is Ok ==> final(deposit).is_active,
        old(deposit).wf() ==> final(deposit).wf(),
{
    apply_deposit(vault, deposit, merchant, vault_key, DepositType::SplToken, amount, now)
}

/// Annualized reward at the stored yield rate: `total * bps / 10000`,
/// floored.
pub open spec fn spec_annual_reward(total_deposited: u64, yield_bps: u16) -> int {
    total_deposited * yield_bps / 10000
}

/// One day's reward: the annual reward floored over 365 days.
pub open spec fn spec_daily_reward(total_deposited: u64, yield_bps: u16) -> int {
    spec_annual_reward(total_deposited, yield_bps) / 365
}

/// Gross reward over the whole holding period.
pub open spec fn spec_gross_reward(total_deposited: u64, yield_bps: u16, days_elapsed: int) -> int {
    spec_daily_reward(total_deposited, yield_bps) * days_elapsed
}

/// The merchant's share of the gross reward; the vault retains the rest.
pub open spec fn spec_merchant_reward(
    total_deposited: u64,
    yield_bps: u16,
    share_bps: u16,
    days_elapsed: int,
) -> int {
    spec_gross_reward(total_deposited, yield_bps, days_elapsed) * share_bps / 10000
}

/// The full payout at withdrawal: principal plus the merchant's reward.
pub open spec fn spec_payout(
    total_deposited: u64,
    yield_bps: u16,
    share_bps: u16,
    days_elapsed: int,
) -> int {
    total_deposited + spec_merchant_reward(total_deposited, yield_bps, share_bps, days_elapsed)
}

/// Every checked step of the reward computation fits in a machine word.
/// When any fails, the whole operation aborts with `MathOverflow`.
pub open spec fn spec_reward_fits(
    total_deposited: u64,
    yield_bps: u16,
    share_bps: u16,
    days_elapsed: int,
) -> bool {
    &&& total_deposited * yield_bps <= u64::MAX
    &&& spec_gross_reward(total_deposited, yield_bps, days_elapsed) <= u64::MAX
    &&& spec_gross_reward(total_deposited, yield_bps, days_elapsed) * share_bps <= u64::MAX
    &&& spec_payout(total_deposited, yield_bps, share_bps, days_elapsed) <= u64::MAX
}

/// The reward preview: the merchant's reward were the withdrawal made at
/// `now`, computed from the record's stored yield rate, with no mutation.
pub open spec fn spec_calculate_rewards(
    vault: Vault,
    deposit: MerchantDeposit,
    now: i64,
) -> Result<u64, VaultError> {
    let days = spec_days_elapsed(deposit.deposited_at, now);
    if !deposit.is_active {
        Err(VaultError::DepositNotActive)
    } else if !spec_reward_fits(
        deposit.total_deposited, deposit.current_yield_bps, vault.reward_share_rate, days,
    ) {
        Err(VaultError::MathOverflow)
    } else {
        Ok(spec_merchant_reward(
            deposit.total_deposited, deposit.current_yield_bps, vault.reward_share_rate, days,
        ) as u64)
    }
}

/// The withdrawal transition: the terminal step of an active record's
/// lifecycle. On success the record becomes inactive, `accrued_rewards`
/// holds the merchant's reward, the principal stays as a historical
/// record, and the result is the exact payout the caller must move out of
/// custody. On error nothing changes.
pub open spec fn spec_withdraw(
    vault: Vault,
    deposit: MerchantDeposit,
    caller: AccountId,
    token_accounts_present: bool,
    now: i64,
) -> (MerchantDeposit, Result<u64, VaultError>) {
    let days = spec_days_elapsed(deposit.deposited_at, now);
    if !deposit.is_active {
        (deposit, Err(VaultError::DepositNotActive))
    } else if deposit.merchant != caller {
        (deposit, Err(VaultError::Unauthorized))
    } else if !spec_reward_fits(
        deposit.total_deposited, deposit.current_yield_bps, vault.reward_share_rate, days,
    ) {
        (deposit, Err(VaultError::MathOverflow))
    } else if deposit.deposit_token == DepositType::SplToken && !token_accounts_present {
        (deposit, Err(VaultError::MissingTokenAccount))
    } else {
        (
            (MerchantDeposit {
                is_active: false,
                accrued_rewards: spec_merchant_reward(
                    deposit.total_deposited, deposit.current_yield_bps,
                    vault.reward_share_rate, days,
                ) as u64,
                ..deposit
            }),
            Ok(spec_payout(
                deposit.total_deposited, deposit.current_yield_bps,
                vault.reward_share_rate, days,
            ) as u64),
        )
    }
}

/// Run the checked reward computation for an active record. Returns the
/// pair (merchant reward, payout), or `MathOverflow` where any step fails.
fn compute_reward(
    total_deposited: u64,
    yield_bps: u16,
    share_bps: u16,
    days_elapsed: u64,
) -> (r: Result<(u64, u64), VaultError>)
    ensures
        spec_reward_fits(total_deposited, yield_bps, share_bps, days_elapsed as int)
            ==> r == Ok::<(u64, u64), VaultError>((
                spec_merchant_reward(total_deposited, yield_bps, share_bps, days_elapsed as int) as u64,
                spec_payout(total_deposited, yield_bps, share_bps, days_elapsed as int) as u64,
            )),
        !spec_reward_fits(total_deposited, yield_bps, share_bps, days_elapsed as int)
            ==> r == Err::<(u64, u64), VaultError>(VaultError::MathOverflow),
{
    let annual_reward = match total_deposited.checked_mul(yield_bps as u64) {
        Some(product) => product / 10000,
        None => {
            return Err(VaultError::MathOverflow);
        }
    };
    let daily_reward = annual_reward / 365;
    let gross_reward = match daily_reward.checked_mul(days_elapsed) {
        Some(product) => product,
        None => {
            return Err(VaultError::MathOverflow);
        }
    };
    let merchant_reward = match gross_reward.checked_mul(share_bps as u64) {
        Some(product) => product / 10000,
        None => {
            return Err(VaultError::MathOverflow);
        }
    };
    let payout = match total_deposited.checked_add(merchant_reward) {
        Some(sum) => sum,
        None => {
            return Err(VaultError::MathOverflow);
        }
    };
    Ok((merchant_reward, payout))
}

/// Preview the reward a withdrawal at `now` would pay the merchant, with
/// no mutation and no fund movement.
pub fn calculate_rewards(
    vault: &Vault,
    deposit: &MerchantDeposit,
    now: i64,
) -> (r: Result<u64, VaultError>)
    requires
        deposit.is_active ==> deposit.deposited_at <= now
            && now - deposit.deposited_at <= i64::MAX,
    ensures
        r == spec_calculate_rewards(*vault, *deposit, now),
{
    if !deposit.is_active {
        return Err(VaultError::DepositNotActive);
    }
    let elapsed: u64 = (now - deposit.deposited_at) as u64;
    let days_elapsed: u64 = elapsed / 86400;
    match compute_reward(
        deposit.total_deposited,
        deposit.current_yield_bps,
        vault.reward_share_rate,
        days_elapsed,
    ) {
        Ok((merchant_reward, _payout)) => Ok(merchant_reward),
        Err(e) => Err(e),
    }
}

/// Withdraw the full principal plus the merchant's reward share, ending
/// the record's active lifecycle. The caller must be the record's
/// merchant; for the token asset class the counterpart token accounts
/// must have been supplied. Returns the exact payout to move out of vault
/// custody; on error nothing is changed and nothing must move.
pub fn withdraw(
    vault: &Vault,
    deposit: &mut MerchantDeposit,
    caller: AccountId,
    token_accounts_present: bool,
    now: i64,
) -> (r: Result<u64, VaultError>)
    requires
        old(deposit).is_active ==> old(deposit).deposited_at <= now
            && now - old(deposit).deposited_at <= i64::MAX,
    ensures
        (*final(deposit), r) == spec_withdraw(
            *vault, *old(deposit), caller, token_accounts_present, now,
        ),
        r is Err ==> *final(deposit) == *old(deposit),
        r is Ok ==> !final(deposit).is_active
            && final(deposit).total_deposited == old(deposit).total_deposited,
        old(deposit).wf() ==> final(deposit).wf(),
{
    if !deposit.is_active {
        return Err(VaultError::DepositNotActive);
    }
    if deposit.merchant != caller {
        return Err(VaultError::Unauthorized);
    }
    let elapsed: u64 = (now - deposit.deposited_at) as u64;
    let days_elapsed: u64 = elapsed / 86400;
    let (merchant_reward, payout) = match compute_reward(
        deposit.total_deposited,
        deposit.current_yield_bps,
        vault.reward_share_rate,
        days_elapsed,
    ) {
        Ok(pair) => pair,
        Err(e) => {
            return Err(e);
        }
    };
    if matches!(deposit.deposit_token, DepositType::SplToken) && !token_accounts_present {
        return Err(VaultError::MissingTokenAccount);
    }
    deposit.is_active = false;
    deposit.accrued_rewards = merchant_reward;
    Ok(payout)
}

/// Whether the rolling 30-day volume window has elapsed at `now`.
pub open spec fn spec_window_expired(deposit: MerchantDeposit, now: i64) -> bool {
    now - deposit.last_volume_reset >= VOLUME_WINDOW_SECS
}

/// The record with its rolling window brought up to date: once the window
/// has elapsed, the window counters restart from zero, anchored at `now`.
pub open spec fn spec_after_window_reset(deposit: MerchantDeposit, now: i64) -> MerchantDeposit {
    if spec_window_expired(deposit, now) {
        MerchantDeposit {
            current_month_volume: 0,
            monthly_unique_customers: 0,
            last_volume_reset: now,
            ..deposit
        }
    } else {
        deposit
    }
}

/// The record-order transition. An order below the anti-gaming floor, or
/// one whose counter updates would overflow, rejects the call and leaves
/// the record unchanged — including any pending window reset, which is
/// part of the aborted operation. Otherwise the window is brought up to
/// date, every counter grows (each order counts as one customer; no
/// deduplication), and the yield rate is recomputed from the new window
/// volume and the tenure at `now`.
pub open spec fn spec_record_order(
    deposit: MerchantDeposit,
    order_amount_usd: u64,
    now: i64,
) -> (MerchantDeposit, Result<(), VaultError>) {
    let base = spec_after_window_reset(deposit, now);
    if order_amount_usd < MIN_ORDER_USD {
        (deposit, Err(VaultError::OrderTooSmall))
    } else if deposit.total_orders_processed + 1 > u64::MAX
        || deposit.total_volume_usd + order_amount_usd > u64::MAX
        || base.current_month_volume + order_amount_usd > u64::MAX
        || base.monthly_unique_customers + 1 > u32::MAX {
        (deposit, Err(VaultError::MathOverflow))
    } else {
        let new_month_volume = (base.current_month_volume + order_amount_usd) as u64;
        (
            (MerchantDeposit {
                total_orders_processed: (deposit.total_orders_processed + 1) as u64,
                total_volume_usd: (deposit.total_volume_usd + order_amount_usd) as u64,
                current_month_volume: new_month_volume,
                monthly_unique_customers: (base.monthly_unique_customers + 1) as u32,
                last_volume_reset: base.last_volume_reset,
                current_yield_bps: spec_dynamic_yield(
                    new_month_volume,
                    spec_days_elapsed(deposit.deposited_at, now),
                ) as u16,
                ..deposit
            }),
            Ok(()),
        )
    }
}

/// Record a completed sale attributed to this merchant, reported by an
/// authorized reporting agent, and recompute the yield rate from the new
/// metrics. On error the record is left unchanged.
pub fn record_order(
    deposit: &mut MerchantDeposit,
    order_amount_usd: u64,
    now: i64,
) -> (r: Result<(), VaultError>)
    requires
        old(deposit).timestamps_before(now),
    ensures
        (*final(deposit), r) == spec_record_order(*old(deposit), order_amount_usd, now),
        r is Err ==> *final(deposit) == *old(deposit),
        r is Ok ==> 300 <= final(deposit).current_yield_bps <= 1200,
        old(deposit).wf() ==> final(deposit).wf(),
{
    proof {
        lemma_yield_bounds(
            spec_record_order(*old(deposit), order_amount_usd, now).0.current_month_volume,
            spec_days_elapsed(old(deposit).deposited_at, now),
        );
    }
    if order_amount_usd < MIN_ORDER_USD {
        return Err(VaultError::OrderTooSmall);
    }
    let window_elapsed: u64 = (now - deposit.last_volume_reset) as u64;
    let window_expired = window_elapsed >= VOLUME_WINDOW_SECS as u64;
    let month_volume_base: u64 = if window_expired { 0 } else { deposit.current_month_volume };
    let unique_base: u32 = if window_expired { 0 } else { deposit.monthly_unique_customers };

    let total_orders = match deposit.total_orders_processed.checked_add(1) {
        Some(v) => v,
        None => {
            return Err(VaultError::MathOverflow);
        }
    };
    let total_volume = match deposit.total_volume_usd.checked_add(order_amount_usd) {
        Some(v) => v,
        None => {
            return Err(VaultError::MathOverflow);
        }
    };
    let month_volume = match month_volume_base.checked_add(order_amount_usd) {
        Some(v) => v,
        None => {
            return Err(VaultError::MathOverflow);
        }
    };
    let unique_customers = match unique_base.checked_add(1) {
        Some(v) => v,
        None => {
            return Err(VaultError::MathOverflow);
        }
    };

    if window_expired {
        deposit.last_volume_reset = now;
    }
    deposit.total_orders_processed = total_orders;
    deposit.total_volume_usd = total_volume;
    deposit.current_month_volume = month_volume;
    deposit.monthly_unique_customers = unique_customers;

    let elapsed: u64 = (now - deposit.deposited_at) as u64;
    let days_since_deposit: u64 = elapsed / 86400;
    deposit.current_yield_bps = calculate_dynamic_yield(month_volume, days_since_deposit as i64);
    Ok(())
}

/// The read-only tier query: the merchant's tier at `now` together with
/// the record's current yield rate. No mutation.
pub fn get_merchant_tier(deposit: &MerchantDeposit, now: i64) -> (r: (u8, u16))
    requires
        deposit.deposited_at <= now,
        now - deposit.deposited_at <= i64::MAX,
    ensures
        r.0 == spec_merchant_tier(
            deposit.current_month_volume,
            spec_days_elapsed(deposit.deposited_at, now),
        ),
        r.1 == deposit.current_yield_bps,
{
    let tier = calculate_merchant_tier(deposit.current_month_volume, deposit.deposited_at, now);
    (tier, deposit.current_yield_bps)
}

} // verus!
