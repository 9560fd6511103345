//! A custodial vault ledger: merchants lock collateral (native units or
//! fungible tokens) into a shared vault and earn performance-linked yield
//! while the collateral is held.
//!
//! This crate holds the verified core: the deposit/withdrawal state machine
//! for a merchant collateral record, the dynamic-yield engine, the tier
//! classifier, and the overflow-safe accounting that ties them together.
//! Fund movement, clock reads, and account addressing are capabilities of the
//! host ledger; callers perform them and hand this library plain values.

pub mod errors;
pub mod laws;
pub mod ops;
pub mod state;
pub mod tier;
pub mod yield_engine;
