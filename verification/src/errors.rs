//! Error taxonomy. Every error aborts the enclosing operation with no
//! partial state mutation; the contracts of the operations state, input by
//! input, exactly which error comes back.

use vstd::prelude::*;

verus! {

#[derive(Clone, Copy, PartialEq, Eq, Structural, Debug)]
pub enum VaultError {
    /// Deposit amount below the configured minimum for its asset class.
    InsufficientDeposit,
    /// Operation targets a non-existent or already-withdrawn record.
    DepositNotActive,
    /// Caller identity does not match the required signer, or the asset
    /// class of a top-up does not match the active record's class.
    Unauthorized,
    /// A checked arithmetic step would overflow.
    MathOverflow,
    /// A configured rate lies outside 0..=10000 basis points.
    InvalidRate,
    /// Order amount below the anti-gaming floor.
    OrderTooSmall,
    /// A token-class operation was invoked without the required
    /// counterpart token account references.
    MissingTokenAccount,
}

} // verus!
