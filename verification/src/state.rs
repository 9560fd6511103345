//! Data model: the global vault registry and the per-merchant deposit record.

use vstd::prelude::*;

verus! {

/// An identity on the host ledger (a 256-bit account key), held as four
/// 64-bit words so that equality is structural and fully visible to the
/// verifier. Callers convert the host's key type to and from this form.
#[derive(Clone, Copy, PartialEq, Eq, Structural, Debug)]
pub struct AccountId {
    pub w0: u64,
    pub w1: u64,
    pub w2: u64,
    pub w3: u64,
}

/// The asset class of a deposit: the ledger's native currency or a
/// fungible token. Fixed for the lifetime of an active deposit record.
#[derive(Clone, Copy, PartialEq, Eq, Structural, Debug)]
pub enum DepositType {
    Sol,
    SplToken,
}

/// Global configuration record, one per deployment, owned by `authority`.
#[derive(Clone, Copy, PartialEq, Eq, Structural, Debug)]
pub struct Vault {
    /// Identity allowed to mutate this configuration.
    pub authority: AccountId,
    /// Running aggregate of deposits (advisory).
    pub total_deposits: u64,
    /// Running count of merchants (advisory).
    pub total_merchants: u32,
    /// Minimum acceptable native-unit deposit.
    pub min_deposit_sol: u64,
    /// Minimum acceptable token deposit.
    pub min_deposit_token: u64,
    /// Fraction of the computed reward paid to the merchant, in basis
    /// points (0..=10000); the vault retains the remainder.
    pub reward_share_rate: u16,
    /// Global feature flag.
    pub staking_enabled: bool,
}

impl Vault {
    /// Configuration well-formedness: the reward share is a valid fraction.
    pub open spec fn wf(self) -> bool {
        self.reward_share_rate <= 10000
    }
}

/// Per-merchant deposit record, one per (vault, merchant) pair, created
/// lazily on first deposit.
#[derive(Clone, Copy, PartialEq, Eq, Structural, Debug)]
pub struct MerchantDeposit {
    /// The merchant this record belongs to.
    pub merchant: AccountId,
    /// The vault this record belongs to.
    pub vault: AccountId,
    /// Asset class, set on first deposit and never changed while active.
    pub deposit_token: DepositType,
    /// Cumulative principal; non-decreasing while the record is active.
    pub total_deposited: u64,
    /// Last computed merchant reward, written only at withdrawal.
    pub accrued_rewards: u64,
    /// Lifecycle flag: false before first deposit and after withdrawal.
    pub is_active: bool,
    /// Timestamp of first deposit (seconds); not reset by later top-ups.
    pub deposited_at: i64,
    /// Lifetime count of recorded orders.
    pub total_orders_processed: u64,
    /// Lifetime order volume, USD micro-units (6 implied decimals).
    pub total_volume_usd: u64,
    /// Order volume inside the current rolling 30-day window.
    pub current_month_volume: u64,
    /// Timestamp the rolling window was last reset.
    pub last_volume_reset: i64,
    /// Orders counted inside the current window (one per order; no
    /// deduplication by buyer — a documented simplification).
    pub monthly_unique_customers: u32,
    /// Most recently computed yield rate, basis points, in 300..=1200.
    pub current_yield_bps: u16,
}

impl MerchantDeposit {
    /// Record well-formedness: an active record carries a yield rate the
    /// yield engine could have produced.
    pub open spec fn wf(self) -> bool {
        self.is_active ==> 300 <= self.current_yield_bps <= 1200
    }

    /// The clock the host ledger supplies is monotonically non-decreasing,
    /// so every timestamp stored in this record was read at or before `now`.
    /// (The upper bounds only rule out differences that exceed the machine
    /// integer range.)
    pub open spec fn timestamps_before(self, now: i64) -> bool {
        &&& self.deposited_at <= now
        &&& now - self.deposited_at <= i64::MAX
        &&& self.last_volume_reset <= now
        &&& now - self.last_volume_reset <= i64::MAX
    }
}

} // verus!
