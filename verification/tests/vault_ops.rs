use shaw_vault::errors::VaultError;
use shaw_vault::ops::{
    calculate_rewards, deposit_sol, deposit_token, initialize, record_order,
    update_vault_config, withdraw,
};
use shaw_vault::state::{AccountId, DepositType, MerchantDeposit};

fn acct(n: u64) -> AccountId {
    AccountId { w0: n, w1: 0, w2: 0, w3: 0 }
}

fn empty_record() -> MerchantDeposit {
    MerchantDeposit {
        merchant: acct(0),
        vault: acct(0),
        deposit_token: DepositType::Sol,
        total_deposited: 0,
        accrued_rewards: 0,
        is_active: false,
        deposited_at: 0,
        total_orders_processed: 0,
        total_volume_usd: 0,
        current_month_volume: 0,
        last_volume_reset: 0,
        monthly_unique_customers: 0,
        current_yield_bps: 0,
    }
}

const DAY: i64 = 86400;

#[test]
fn initialize_sets_defaults() {
    let vault = initialize(acct(1));
    assert_eq!(vault.authority, acct(1));
    assert_eq!(vault.total_deposits, 0);
    assert_eq!(vault.total_merchants, 0);
    assert_eq!(vault.min_deposit_sol, 1_000_000_000);
    assert_eq!(vault.min_deposit_token, 100_000_000);
    assert_eq!(vault.reward_share_rate, 8000);
    assert!(vault.staking_enabled);
}

#[test]
fn deposit_below_minimum_is_rejected() {
    let vault = initialize(acct(1));
    let mut record = empty_record();
    let before = record;
    let r = deposit_sol(&vault, &mut record, acct(2), acct(3), 999_999_999, 0);
    assert_eq!(r, Err(VaultError::InsufficientDeposit));
    assert_eq!(record, before);
    let r = deposit_token(&vault, &mut record, acct(2), acct(3), 99_999_999, 0);
    assert_eq!(r, Err(VaultError::InsufficientDeposit));
    assert_eq!(record, before);
}

#[test]
fn first_deposit_activates_with_base_yield() {
    // Scenario: deposit 2e9 native units against the 1e9 minimum.
    let vault = initialize(acct(1));
    let mut record = empty_record();
    let r = deposit_sol(&vault, &mut record, acct(2), acct(3), 2_000_000_000, 1_000);
    assert_eq!(r, Ok(()));
    assert!(record.is_active);
    assert_eq!(record.merchant, acct(2));
    assert_eq!(record.vault, acct(3));
    assert_eq!(record.deposit_token, DepositType::Sol);
    assert_eq!(record.total_deposited, 2_000_000_000);
    assert_eq!(record.accrued_rewards, 0);
    assert_eq!(record.deposited_at, 1_000);
    assert_eq!(record.last_volume_reset, 1_000);
    assert_eq!(record.current_yield_bps, 300);
}

#[test]
fn topup_adds_exactly_and_keeps_tenure() {
    let vault = initialize(acct(1));
    let mut record = empty_record();
    deposit_sol(&vault, &mut record, acct(2), acct(3), 2_000_000_000, 1_000).unwrap();
    let r = deposit_sol(&vault, &mut record, acct(2), acct(3), 1_500_000_000, 50_000);
    assert_eq!(r, Ok(()));
    assert_eq!(record.total_deposited, 3_500_000_000);
    assert_eq!(record.deposited_at, 1_000);
    assert_eq!(record.current_yield_bps, 300);
}

#[test]
fn topup_with_other_asset_class_is_rejected() {
    let vault = initialize(acct(1));
    let mut record = empty_record();
    deposit_sol(&vault, &mut record, acct(2), acct(3), 2_000_000_000, 1_000).unwrap();
    let before = record;
    let r = deposit_token(&vault, &mut record, acct(2), acct(3), 100_000_000, 2_000);
    assert_eq!(r, Err(VaultError::Unauthorized));
    assert_eq!(record, before);
}

#[test]
fn topup_overflow_is_rejected_whole() {
    let vault = initialize(acct(1));
    let mut record = empty_record();
    deposit_sol(&vault, &mut record, acct(2), acct(3), u64::MAX, 0).unwrap();
    let before = record;
    let r = deposit_sol(&vault, &mut record, acct(2), acct(3), 1_000_000_000, 10);
    assert_eq!(r, Err(VaultError::MathOverflow));
    assert_eq!(record, before);
}

#[test]
fn record_order_updates_metrics_and_yield() {
    // Scenario: a $50 order ten days after deposit, no prior volume.
    let vault = initialize(acct(1));
    let mut record = empty_record();
    deposit_sol(&vault, &mut record, acct(2), acct(3), 2_000_000_000, 0).unwrap();
    let r = record_order(&mut record, 50_000_000, 10 * DAY);
    assert_eq!(r, Ok(()));
    assert_eq!(record.total_orders_processed, 1);
    assert_eq!(record.total_volume_usd, 50_000_000);
    assert_eq!(record.current_month_volume, 50_000_000);
    assert_eq!(record.monthly_unique_customers, 1);
    // volume bonus 0, loyalty bonus floor(10 * 300 / 365) = 8
    assert_eq!(record.current_yield_bps, 308);
}

#[test]
fn small_order_is_rejected_without_mutation() {
    let vault = initialize(acct(1));
    let mut record = empty_record();
    deposit_sol(&vault, &mut record, acct(2), acct(3), 2_000_000_000, 0).unwrap();
    // Push the record past its window so a reset is pending, then send an
    // order below the $10 floor: the abort must also discard the reset.
    record_order(&mut record, 20_000_000, 1 * DAY).unwrap();
    let before = record;
    let r = record_order(&mut record, 9_999_999, 40 * DAY);
    assert_eq!(r, Err(VaultError::OrderTooSmall));
    assert_eq!(record, before);
}

#[test]
fn rolling_window_resets_after_thirty_days() {
    let vault = initialize(acct(1));
    let mut record = empty_record();
    deposit_sol(&vault, &mut record, acct(2), acct(3), 2_000_000_000, 0).unwrap();
    record_order(&mut record, 20_000_000_000, 1 * DAY).unwrap();
    assert_eq!(record.current_month_volume, 20_000_000_000);
    assert_eq!(record.monthly_unique_customers, 1);
    // 40 days later the 30-day window has elapsed: counters restart.
    let r = record_order(&mut record, 15_000_000, 40 * DAY);
    assert_eq!(r, Ok(()));
    assert_eq!(record.current_month_volume, 15_000_000);
    assert_eq!(record.monthly_unique_customers, 1);
    assert_eq!(record.last_volume_reset, 40 * DAY);
    // Lifetime counters keep growing.
    assert_eq!(record.total_orders_processed, 2);
    assert_eq!(record.total_volume_usd, 20_015_000_000);
    // Yield at day 40: volume bonus 0, loyalty floor(40 * 300 / 365) = 32.
    assert_eq!(record.current_yield_bps, 332);
}

#[test]
fn order_counter_overflow_is_rejected_whole() {
    let vault = initialize(acct(1));
    let mut record = empty_record();
    deposit_sol(&vault, &mut record, acct(2), acct(3), 2_000_000_000, 0).unwrap();
    record.total_volume_usd = u64::MAX - 1;
    let before = record;
    let r = record_order(&mut record, 10_000_000, 1 * DAY);
    assert_eq!(r, Err(VaultError::MathOverflow));
    assert_eq!(record, before);
}

#[test]
fn withdraw_pays_principal_plus_share_and_terminates() {
    // Scenario: withdraw thirty days after deposit at yield 308 bps and
    // an 8000 bps merchant share.
    let vault = initialize(acct(1));
    let mut record = empty_record();
    deposit_sol(&vault, &mut record, acct(2), acct(3), 2_000_000_000, 0).unwrap();
    record_order(&mut record, 50_000_000, 10 * DAY).unwrap();
    assert_eq!(record.current_yield_bps, 308);
    let r = withdraw(&vault, &mut record, acct(2), false, 30 * DAY);
    // annual 61_600_000, daily 168_767, gross 5_063_010, share 4_050_408
    assert_eq!(r, Ok(2_004_050_408));
    assert!(!record.is_active);
    assert_eq!(record.accrued_rewards, 4_050_408);
    assert_eq!(record.total_deposited, 2_000_000_000);
    // A second attempt finds the record terminated.
    let r2 = withdraw(&vault, &mut record, acct(2), false, 31 * DAY);
    assert_eq!(r2, Err(VaultError::DepositNotActive));
}

#[test]
fn withdraw_by_other_caller_is_rejected() {
    let vault = initialize(acct(1));
    let mut record = empty_record();
    deposit_sol(&vault, &mut record, acct(2), acct(3), 2_000_000_000, 0).unwrap();
    let before = record;
    let r = withdraw(&vault, &mut record, acct(9), true, 30 * DAY);
    assert_eq!(r, Err(VaultError::Unauthorized));
    assert_eq!(record, before);
}

#[test]
fn token_withdraw_needs_token_accounts() {
    let vault = initialize(acct(1));
    let mut record = empty_record();
    deposit_token(&vault, &mut record, acct(2), acct(3), 100_000_000, 0).unwrap();
    let before = record;
    let r = withdraw(&vault, &mut record, acct(2), false, 30 * DAY);
    assert_eq!(r, Err(VaultError::MissingTokenAccount));
    assert_eq!(record, before);
    let r2 = withdraw(&vault, &mut record, acct(2), true, 30 * DAY);
    assert!(r2.is_ok());
}

#[test]
fn withdraw_overflow_is_rejected_whole() {
    let vault = initialize(acct(1));
    let mut record = empty_record();
    // 1e17 * 300 bps overflows the first checked multiplication.
    deposit_sol(&vault, &mut record, acct(2), acct(3), 100_000_000_000_000_000, 0).unwrap();
    let before = record;
    let r = withdraw(&vault, &mut record, acct(2), true, 30 * DAY);
    assert_eq!(r, Err(VaultError::MathOverflow));
    assert_eq!(record, before);
}

#[test]
fn rewards_preview_matches_withdraw() {
    let vault = initialize(acct(1));
    let mut record = empty_record();
    deposit_sol(&vault, &mut record, acct(2), acct(3), 2_000_000_000, 0).unwrap();
    record_order(&mut record, 50_000_000, 10 * DAY).unwrap();
    let now = 30 * DAY;
    let preview = calculate_rewards(&vault, &record, now).unwrap();
    let payout = withdraw(&vault, &mut record, acct(2), false, now).unwrap();
    assert_eq!(preview, 4_050_408);
    assert_eq!(payout, 2_000_000_000 + preview);
    assert_eq!(record.accrued_rewards, preview);
}

#[test]
fn rewards_preview_needs_active_record() {
    let vault = initialize(acct(1));
    let record = empty_record();
    assert_eq!(calculate_rewards(&vault, &record, 100), Err(VaultError::DepositNotActive));
}

#[test]
fn config_update_overwrites_present_fields() {
    let mut vault = initialize(acct(1));
    let r = update_vault_config(
        &mut vault,
        acct(1),
        Some(5_000_000_000),
        None,
        Some(9_000),
        Some(false),
    );
    assert_eq!(r, Ok(()));
    assert_eq!(vault.min_deposit_sol, 5_000_000_000);
    assert_eq!(vault.min_deposit_token, 100_000_000);
    assert_eq!(vault.reward_share_rate, 9_000);
    assert!(!vault.staking_enabled);
}

#[test]
fn config_update_rejects_invalid_rate() {
    let mut vault = initialize(acct(1));
    let before = vault;
    let r = update_vault_config(&mut vault, acct(1), Some(7), Some(7), Some(10_001), None);
    assert_eq!(r, Err(VaultError::InvalidRate));
    assert_eq!(vault, before);
}

#[test]
fn config_update_rejects_other_callers() {
    let mut vault = initialize(acct(1));
    let before = vault;
    let r = update_vault_config(&mut vault, acct(2), None, None, Some(1), None);
    assert_eq!(r, Err(VaultError::Unauthorized));
    assert_eq!(vault, before);
}
