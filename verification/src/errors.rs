//! The error taxonomy of the staking engine. Every failure is terminal for
//! the requesting operation: no state change has been committed when an
//! operation returns an error.

use vstd::prelude::*;

verus! {

/// Why an operation was refused. Authorization failures, parameter
/// validation, capacity and state violations, and arithmetic failures each
/// have their own variant; the contracts of the operations say exactly which
/// inputs produce which variant.
#[derive(Clone, Copy, Debug, PartialEq, Eq, Structural)]
pub enum ErrorCode {
    /// The caller is not the administrator the record names.
    Unauthorized,
    /// The requested lock is shorter than the pool's minimum, or a pool was
    /// asked for a negative minimum lock period.
    InvalidLockPeriod,
    /// Accepting the stake would push the pool's running total over its
    /// capacity ceiling.
    PoolCapacityExceeded,
    /// A zero amount, a zero capacity ceiling, or a slashing rate over 100%.
    InvalidAmount,
    /// More principal was asked back than the position holds.
    InsufficientStake,
    /// The position has been slashed and can no longer withdraw.
    StakeSlashed,
    /// Reserved for the value-transfer collaborator's token-type check; no
    /// operation of this engine produces it.
    InvalidTokenMint,
    /// The pool no longer accepts new stakes.
    PoolInactive,
    /// The position does not belong to the stated pool.
    InvalidPool,
    /// The caller-supplied vault reference is not the pool's bound vault, or
    /// a binding was attempted with an address that is not the expected
    /// derivation.
    InvalidPoolVault,
    /// The registry is paused and refuses new pools.
    ProgramPaused,
    /// The elapsed time since the last settlement cannot be represented.
    InvalidTimestamp,
    /// An intermediate product or the final amount does not fit its width.
    MathOverflow,
    /// A custody vault has not been bound to the pool yet.
    VaultNotInitialized,
    /// A position with principal still in it cannot be closed.
    StakeNotZero,
}

} // verus!
