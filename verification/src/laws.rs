//! Laws that relate the operations to one another, stated over the
//! spec-level transitions and proved once for all inputs. The per-call
//! guarantees (exact payout formula, no mutation on error, yield bounds
//! and monotonicity, tier thresholds) live in the contracts of the
//! operations and of the yield and tier modules.

use vstd::prelude::*;

verus! {

use vstd::arithmetic::div_mod::lemma_div_pos_is_pos;
use vstd::arithmetic::mul::lemma_mul_nonnegative;
use crate::errors::VaultError;
use crate::state::{AccountId, MerchantDeposit, Vault};
use crate::tier::spec_days_elapsed;
use crate::ops::{
    spec_deposit, spec_min_deposit, spec_record_order, spec_update_config,
    spec_withdraw, spec_calculate_rewards, spec_merchant_reward,
    spec_reward_fits, MIN_ORDER_USD,
};
use crate::state::DepositType;

/// A deposit below the configured minimum is rejected as
/// `InsufficientDeposit` — and nothing else is; one at or above it, whose
/// asset class matches any active record and whose principal sum fits,
/// succeeds and grows the held principal by exactly `amount`.
pub proof fn lemma_deposit_minimum(
    vault: Vault,
    deposit: MerchantDeposit,
    merchant: AccountId,
    vault_key: AccountId,
    deposit_token: DepositType,
    amount: u64,
    now: i64,
)
    requires
        deposit.is_active ==> deposit.deposit_token == deposit_token,
        deposit.is_active ==> deposit.total_deposited + amount <= u64::MAX,
    ensures
        amount < spec_min_deposit(vault, deposit_token)
            <==> spec_deposit(vault, deposit, merchant, vault_key, deposit_token, amount, now).1
                == Err::<(), VaultError>(VaultError::InsufficientDeposit),
        amount >= spec_min_deposit(vault, deposit_token) ==> {
            let (after, outcome) =
                spec_deposit(vault, deposit, merchant, vault_key, deposit_token, amount, now);
            &&& outcome == Ok::<(), VaultError>(())
            &&& after.total_deposited ==
                (if deposit.is_active { deposit.total_deposited as int } else { 0 }) + amount
        },
{
}

/// An order below the anti-gaming floor is rejected as `OrderTooSmall`,
/// and any rejected order — too small or overflowing — leaves the record
/// exactly as it was, pending window reset included.
pub proof fn lemma_order_rejection(deposit: MerchantDeposit, order_amount_usd: u64, now: i64)
    ensures
        order_amount_usd < MIN_ORDER_USD
            ==> spec_record_order(deposit, order_amount_usd, now)
                == (deposit, Err::<(), VaultError>(VaultError::OrderTooSmall)),
        spec_record_order(deposit, order_amount_usd, now).1 is Err
            ==> spec_record_order(deposit, order_amount_usd, now).0 == deposit,
{
}

/// A configuration update carrying a reward share above 10000 basis
/// points is rejected as `InvalidRate` even for the authority, and the
/// registry keeps every field it had.
pub proof fn lemma_invalid_rate_rejected(
    vault: Vault,
    caller: AccountId,
    min_deposit_sol: Option<u64>,
    min_deposit_token: Option<u64>,
    reward_share_rate: u16,
    staking_enabled: Option<bool>,
)
    requires
        caller == vault.authority,
        reward_share_rate > 10000,
    ensures
        spec_update_config(
            vault, caller, min_deposit_sol, min_deposit_token,
            Some(reward_share_rate), staking_enabled,
        ) == (vault, Err::<(), VaultError>(VaultError::InvalidRate)),
{
}

/// Withdrawal is terminal: once a withdrawal has succeeded, any further
/// withdrawal attempt on the resulting record — by anyone, at any time,
/// against any configuration — fails with `DepositNotActive`.
pub proof fn lemma_withdraw_is_terminal(
    vault: Vault,
    deposit: MerchantDeposit,
    caller: AccountId,
    token_accounts_present: bool,
    now: i64,
    later_vault: Vault,
    later_caller: AccountId,
    later_token_accounts_present: bool,
    later_now: i64,
)
    requires
        spec_withdraw(vault, deposit, caller, token_accounts_present, now).1 is Ok,
    ensures
        spec_withdraw(
            later_vault,
            spec_withdraw(vault, deposit, caller, token_accounts_present, now).0,
            later_caller,
            later_token_accounts_present,
            later_now,
        ).1 == Err::<u64, VaultError>(VaultError::DepositNotActive),
{
}

/// The reward preview agrees with withdrawal at the same instant: the
/// preview succeeds exactly when the merchant's own withdrawal (with its
/// token accounts supplied) would, the withdrawal pays out principal plus
/// exactly the previewed reward, and records that reward as accrued.
pub proof fn lemma_preview_matches_withdraw(
    vault: Vault,
    deposit: MerchantDeposit,
    now: i64,
)
    requires
        deposit.is_active ==> deposit.deposited_at <= now,
    ensures
        spec_calculate_rewards(vault, deposit, now) is Ok
            <==> spec_withdraw(vault, deposit, deposit.merchant, true, now).1 is Ok,
        spec_calculate_rewards(vault, deposit, now) matches Ok(reward) ==> {
            let (after, outcome) = spec_withdraw(vault, deposit, deposit.merchant, true, now);
            &&& outcome == Ok::<u64, VaultError>((deposit.total_deposited + reward) as u64)
            &&& deposit.total_deposited + reward <= u64::MAX
            &&& after.accrued_rewards == reward
        },
{
    if deposit.is_active {
        let days = spec_days_elapsed(deposit.deposited_at, now);
        assert(days >= 0) by {
            lemma_div_pos_is_pos(now - deposit.deposited_at, 86400);
        }
        if spec_reward_fits(
            deposit.total_deposited, deposit.current_yield_bps, vault.reward_share_rate, days,
        ) {
            let total = deposit.total_deposited;
            let annual = total * deposit.current_yield_bps / 10000;
            assert(annual >= 0) by {
                lemma_mul_nonnegative(total as int, deposit.current_yield_bps as int);
                lemma_div_pos_is_pos(total * deposit.current_yield_bps, 10000);
            }
            assert(annual / 365 >= 0) by {
                lemma_div_pos_is_pos(annual, 365);
            }
            lemma_mul_nonnegative(annual / 365, days);
            let gross = (annual / 365) * days;
            assert(gross * vault.reward_share_rate >= 0) by {
                lemma_mul_nonnegative(gross, vault.reward_share_rate as int);
            }
            assert(spec_merchant_reward(
                total, deposit.current_yield_bps, vault.reward_share_rate, days,
            ) >= 0) by {
                lemma_div_pos_is_pos(gross * vault.reward_share_rate, 10000);
            }
        }
    }
}

} // verus!
