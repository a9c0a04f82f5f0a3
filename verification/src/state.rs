//! The persisted records of the staking engine and their well-formedness.

use vstd::prelude::*;

use crate::address::Address;

verus! {

/// The singleton registry: administrator identity, pool counter, and the
/// pause flag gating new pool creation. Created once, never destroyed, and
/// mutated only by pool creation.
#[derive(Clone, Copy, Debug, PartialEq, Eq, Structural)]
pub struct ProgramState {
    /// Who may create pools.
    pub admin: Address,
    /// Monotonically increasing count of pools created so far.
    pub total_pools: u64,
    /// While set, pool creation is refused.
    pub is_paused: bool,
}

/// One staking pool. Its two custody vaults start unbound and are bound in
/// later steps; staking and claiming are refused until both are bound. A
/// pool is never destroyed.
#[derive(Clone, Copy, Debug, PartialEq, Eq, Structural)]
pub struct StakingPool {
    /// Unique key of the pool.
    pub pool_id: u64,
    /// The token type this pool accepts.
    pub token_mint: Address,
    /// Custody account holding staked principal, once bound.
    pub pool_vault: Option<Address>,
    /// Custody account holding the reserve that pays yield, once bound.
    pub reward_vault: Option<Address>,
    /// Who may bind this pool's vaults.
    pub admin: Address,
    /// Capacity ceiling on the running total of staked principal.
    pub max_stake_amount: u64,
    /// Running total of all principal currently held.
    pub current_staked: u64,
    /// Lower bound, in seconds, on any lock a staker chooses.
    pub min_lock_period: i64,
    /// Early-exit penalty rate in basis points, at most 10000.
    pub slashing_rate: u16,
    /// Yield per staked token per second, scaled by `PRECISION_MULT`.
    pub base_reward_rate: u64,
    /// Per-pool yield scaler in basis points; 10000 is 1.0x.
    pub performance_multiplier: u64,
    /// When the pool was created.
    pub created_at: i64,
    /// While clear, new stakes are refused.
    pub is_active: bool,
}

/// One user's position in one pool. Created on the user's first stake into
/// that pool; closable only once its principal has gone back to zero.
#[derive(Clone, Copy, Debug, PartialEq, Eq, Structural)]
pub struct UserStake {
    /// The owning user.
    pub user: Address,
    /// The pool this position belongs to.
    pub pool_id: u64,
    /// Principal currently held by the position.
    pub stake_amount: u64,
    /// The duration that set the current lock deadline.
    pub lock_duration: i64,
    /// When the position was first opened.
    pub staked_at: i64,
    /// Absolute deadline before which withdrawal is penalized. Only ever
    /// extended by a top-up, never shortened.
    pub lock_until: i64,
    /// High-water mark of reward settlement: no interval before it is ever
    /// counted again.
    pub last_claimed: i64,
    /// Reserved carried balance; this engine always settles in full, so it
    /// stays zero.
    pub pending_rewards: u64,
    /// Set by an external governance path; once set, withdrawal is blocked.
    pub is_slashed: bool,
}

impl StakingPool {
    /// What every committed pool satisfies: positive capacity, the running
    /// total within it, a penalty rate of at most 100%, and a non-negative
    /// minimum lock.
    pub open spec fn wf(self) -> bool {
        &&& self.max_stake_amount > 0
        &&& self.current_staked <= self.max_stake_amount
        &&& self.slashing_rate <= 10000
        &&& self.min_lock_period >= 0
    }
}

impl UserStake {
    /// What every committed position satisfies: the lock deadline never
    /// sits before the opening time, the recorded lock duration is
    /// non-negative, and no carried reward balance accrues.
    pub open spec fn wf(self) -> bool {
        &&& self.lock_until >= self.staked_at
        &&& self.lock_duration >= 0
        &&& self.pending_rewards == 0
    }
}

} // verus!
