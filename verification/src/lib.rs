//! A token-custody staking pool: users lock fungible tokens for a minimum
//! period in exchange for time-based yield, with an early-exit penalty.
//!
//! This crate is the accounting and custody-authorization engine: registry and
//! pool lifecycle state, per-position stake ledger, reward accrual and
//! slashing mathematics, and the vault-identity discipline that gates every
//! outbound value transfer. All state transitions are pure functions over
//! plain values; the caller performs the external token transfers that an
//! operation authorizes, after committing the returned state.

pub mod address;
pub mod errors;
pub mod laws;
pub mod math;
pub mod ops;
pub mod state;
