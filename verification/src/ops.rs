//! The operation surface of the staking engine.
//!
//! Each operation is an atomic request: it validates, computes the complete
//! new state, and either commits all of it and reports what value must move,
//! or commits nothing and returns the error. The caller performs any
//! external transfer only after the returned state is committed, so a
//! re-entry triggered by the transfer observes only post-mutation state.
//!
//! Every operation's behaviour is pinned by a spec-level transition
//! function; the executable function's contract says its result and its
//! mutations equal that transition's.

use vstd::prelude::*;

use crate::address::{Address, VaultKind, spec_derive_vault_address, derive_vault_address};
use crate::errors::ErrorCode;
use crate::math::{
    calculate_rewards,
    calculate_slashing_penalty,
    reward_overflows,
    spec_reward_amount,
    spec_slashing_penalty,
};
use crate::state::{ProgramState, StakingPool, UserStake};

verus! {

/// Creates the registry singleton: the caller becomes administrator, the
/// pool counter starts at zero, and pool creation starts unpaused.
pub fn initialize(admin: Address) -> (s: ProgramState)
    ensures
        s == (ProgramState { admin, total_pools: 0, is_paused: false }),
{
    ProgramState { admin, total_pools: 0, is_paused: false }
}

/// Why a pool creation is refused, or `None` when it is accepted: only the
/// registry administrator may create pools, a paused registry refuses them,
/// the capacity ceiling must be positive, the penalty rate at most 100%,
/// the minimum lock non-negative, and the pool counter must not overflow.
pub open spec fn spec_create_pool_error(
    state: ProgramState,
    caller: Address,
    max_stake_amount: u64,
    min_lock_period: i64,
    slashing_rate: u16,
) -> Option<ErrorCode> {
    if caller != state.admin {
        Some(ErrorCode::Unauthorized)
    } else if state.is_paused {
        Some(ErrorCode::ProgramPaused)
    } else if max_stake_amount == 0 {
        Some(ErrorCode::InvalidAmount)
    } else if slashing_rate > 10000 {
        Some(ErrorCode::InvalidAmount)
    } else if min_lock_period < 0 {
        Some(ErrorCode::InvalidLockPeriod)
    } else if state.total_pools + 1 > u64::MAX {
        Some(ErrorCode::MathOverflow)
    } else {
        None
    }
}

/// The pool record a successful creation commits: empty, active, with both
/// vaults unbound and the performance multiplier at its 1.0x default.
pub open spec fn spec_created_pool(
    caller: Address,
    pool_id: u64,
    token_mint: Address,
    max_stake_amount: u64,
    min_lock_period: i64,
    slashing_rate: u16,
    base_reward_rate: u64,
    now: i64,
) -> StakingPool {
    StakingPool {
        pool_id,
        token_mint,
        pool_vault: None,
        reward_vault: None,
        admin: caller,
        max_stake_amount,
        current_staked: 0,
        min_lock_period,
        slashing_rate,
        base_reward_rate,
        performance_multiplier: 10000,
        created_at: now,
        is_active: true,
    }
}

/// Creates a pool under the registry. On success the registry's pool
/// counter has grown by one and the returned pool is well-formed; on
/// failure the registry is unchanged.
pub fn create_pool(
    state: &mut ProgramState,
    caller: Address,
    pool_id: u64,
    token_mint: Address,
    max_stake_amount: u64,
    min_lock_period: i64,
    slashing_rate: u16,
    base_reward_rate: u64,
    now: i64,
) -> (r: Result<StakingPool, ErrorCode>)
    ensures
        match r {
            Ok(pool) => {
                &&& spec_create_pool_error(
                    *old(state),
                    caller,
                    max_stake_amount,
                    min_lock_period,
                    slashing_rate,
                ) is None
                &&& pool == spec_created_pool(
                    caller,
                    pool_id,
                    token_mint,
                    max_stake_amount,
                    min_lock_period,
                    slashing_rate,
                    base_reward_rate,
                    now,
                )
                &&& pool.wf()
                &&& *final(state) == (ProgramState {
                    total_pools: (old(state).total_pools + 1) as u64,
                    ..*old(state)
                })
            },
            Err(e) => {
                &&& spec_create_pool_error(
                    *old(state),
                    caller,
                    max_stake_amount,
                    min_lock_period,
                    slashing_rate,
                ) == Some(e)
                &&& *final(state) == *old(state)
            },
        },
{
    if caller != state.admin {
        return Err(ErrorCode::Unauthorized);
    }
    if state.is_paused {
        return Err(ErrorCode::ProgramPaused);
    }
    if max_stake_amount == 0 {
        return Err(ErrorCode::InvalidAmount);
    }
    if slashing_rate > 10000 {
        return Err(ErrorCode::InvalidAmount);
    }
    if min_lock_period < 0 {
        return Err(ErrorCode::InvalidLockPeriod);
    }
    let new_total_pools: u64 = match state.total_pools.checked_add(1) {
        Some(v) => v,
        None => {
            return Err(ErrorCode::MathOverflow);
        },
    };
    state.total_pools = new_total_pools;
    Ok(
        StakingPool {
            pool_id,
            token_mint,
            pool_vault: None,
            reward_vault: None,
            admin: caller,
            max_stake_amount,
            current_staked: 0,
            min_lock_period,
            slashing_rate,
            base_reward_rate,
            performance_multiplier: 10000,
            created_at: now,
            is_active: true,
        },
    )
}

/// Why a vault binding is refused, or `None` when it is accepted: only the
/// pool's administrator may bind, and the supplied address must equal the
/// deterministic derivation for this kind of vault of this pool.
pub open spec fn spec_bind_vault_error(
    pool: StakingPool,
    caller: Address,
    supplied_vault: Address,
    kind: VaultKind,
) -> Option<ErrorCode> {
    if caller != pool.admin {
        Some(ErrorCode::Unauthorized)
    } else if supplied_vault != spec_derive_vault_address(kind, pool.pool_id) {
        Some(ErrorCode::InvalidPoolVault)
    } else {
        None
    }
}

/// Binds the principal vault: records the custody account that will hold
/// staked principal, after checking that the caller is the pool's
/// administrator and re-deriving the expected address. On failure the pool
/// is unchanged.
pub fn init_pool_vault(pool: &mut StakingPool, caller: Address, supplied_vault: Address) -> (r:
    Result<(), ErrorCode>)
    ensures
        match r {
            Ok(()) => {
                &&& spec_bind_vault_error(*old(pool), caller, supplied_vault, VaultKind::Principal)
                    is None
                &&& *final(pool) == (StakingPool {
                    pool_vault: Some(supplied_vault),
                    ..*old(pool)
                })
            },
            Err(e) => {
                &&& spec_bind_vault_error(*old(pool), caller, supplied_vault, VaultKind::Principal)
                    == Some(e)
                &&& *final(pool) == *old(pool)
            },
        },
        old(pool).wf() ==> final(pool).wf(),
{
    if caller != pool.admin {
        return Err(ErrorCode::Unauthorized);
    }
    let expected = derive_vault_address(VaultKind::Principal, pool.pool_id);
    if supplied_vault != expected {
        return Err(ErrorCode::InvalidPoolVault);
    }
    pool.pool_vault = Some(supplied_vault);
    Ok(())
}

/// Binds the reward vault: records the custody account that holds the
/// reserve paying yield, under the same authorization and derivation check
/// as the principal vault. On failure the pool is unchanged.
pub fn init_reward_vault(pool: &mut StakingPool, caller: Address, supplied_vault: Address) -> (r:
    Result<(), ErrorCode>)
    ensures
        match r {
            Ok(()) => {
                &&& spec_bind_vault_error(*old(pool), caller, supplied_vault, VaultKind::Reward)
                    is None
                &&& *final(pool) == (StakingPool {
                    reward_vault: Some(supplied_vault),
                    ..*old(pool)
                })
            },
            Err(e) => {
                &&& spec_bind_vault_error(*old(pool), caller, supplied_vault, VaultKind::Reward)
                    == Some(e)
                &&& *final(pool) == *old(pool)
            },
        },
        old(pool).wf() ==> final(pool).wf(),
{
    if caller != pool.admin {
        return Err(ErrorCode::Unauthorized);
    }
    let expected = derive_vault_address(VaultKind::Reward, pool.pool_id);
    if supplied_vault != expected {
        return Err(ErrorCode::InvalidPoolVault);
    }
    pool.reward_vault = Some(supplied_vault);
    Ok(())
}

/// The full transition of `stake`: the prioritized validation chain, and on
/// success the pool with its running total grown by `amount` and the
/// position opened or topped up. A top-up extends the lock deadline only if
/// the freshly computed deadline lies further out; a shorter new lock never
/// shortens an existing one.
pub open spec fn spec_stake(
    pool: StakingPool,
    position: Option<UserStake>,
    user: Address,
    supplied_vault: Address,
    amount: u64,
    lock_duration: i64,
    now: i64,
) -> Result<(StakingPool, UserStake), ErrorCode> {
    if !pool.is_active {
        Err(ErrorCode::PoolInactive)
    } else if amount == 0 {
        Err(ErrorCode::InvalidAmount)
    } else if lock_duration < pool.min_lock_period {
        Err(ErrorCode::InvalidLockPeriod)
    } else if pool.pool_vault is None || pool.reward_vault is None {
        Err(ErrorCode::VaultNotInitialized)
    } else if pool.pool_vault != Some(supplied_vault) {
        Err(ErrorCode::InvalidPoolVault)
    } else if pool.current_staked + amount > u64::MAX {
        Err(ErrorCode::MathOverflow)
    } else if pool.current_staked + amount > pool.max_stake_amount {
        Err(ErrorCode::PoolCapacityExceeded)
    } else {
        let new_pool = StakingPool {
            current_staked: (pool.current_staked + amount) as u64,
            ..pool
        };
        match position {
            None => {
                if now + lock_duration > i64::MAX || now + lock_duration < i64::MIN {
                    Err(ErrorCode::MathOverflow)
                } else {
                    Ok(
                        (
                            new_pool,
                            UserStake {
                                user,
                                pool_id: pool.pool_id,
                                stake_amount: amount,
                                lock_duration,
                                staked_at: now,
                                lock_until: (now + lock_duration) as i64,
                                last_claimed: now,
                                pending_rewards: 0,
                                is_slashed: false,
                            },
                        ),
                    )
                }
            },
            Some(pos) => {
                if pos.pool_id != pool.pool_id {
                    Err(ErrorCode::InvalidPool)
                } else if pos.stake_amount + amount > u64::MAX {
                    Err(ErrorCode::MathOverflow)
                } else if now + lock_duration > i64::MAX || now + lock_duration < i64::MIN {
                    Err(ErrorCode::MathOverflow)
                } else if now + lock_duration > pos.lock_until {
                    Ok(
                        (
                            new_pool,
                            UserStake {
                                stake_amount: (pos.stake_amount + amount) as u64,
                                lock_duration,
                                lock_until: (now + lock_duration) as i64,
                                ..pos
                            },
                        ),
                    )
                } else {
                    Ok(
                        (
                            new_pool,
                            UserStake { stake_amount: (pos.stake_amount + amount) as u64, ..pos },
                        ),
                    )
                }
            },
        }
    }
}

/// Locks `amount` of the caller's tokens into the pool. On success the
/// caller owes the pool's principal vault a transfer of exactly `amount`,
/// to be performed only after this state is committed; the capacity ceiling
/// and the vault-identity check have both passed before any value may move.
/// On failure nothing has changed, so no transfer happens for a doomed
/// operation.
pub fn stake(
    pool: &mut StakingPool,
    position: &mut Option<UserStake>,
    user: Address,
    supplied_vault: Address,
    amount: u64,
    lock_duration: i64,
    now: i64,
) -> (r: Result<(), ErrorCode>)
    ensures
        match r {
            Ok(()) => {
                &&& spec_stake(
                    *old(pool),
                    *old(position),
                    user,
                    supplied_vault,
                    amount,
                    lock_duration,
                    now,
                ) matches Ok(next)
                &&& *final(pool) == next.0
                &&& *final(position) == Some(next.1)
            },
            Err(e) => {
                &&& spec_stake(
                    *old(pool),
                    *old(position),
                    user,
                    supplied_vault,
                    amount,
                    lock_duration,
                    now,
                ) == Err::<(StakingPool, UserStake), ErrorCode>(e)
                &&& *final(pool) == *old(pool)
                &&& *final(position) == *old(position)
            },
        },
        // The running total never exceeds the capacity ceiling after a stake.
        r is Ok ==> final(pool).current_staked <= final(pool).max_stake_amount,
        r is Ok ==> final(pool).current_staked == old(pool).current_staked + amount,
        // The lock deadline never decreases across a top-up.
        r is Ok && (*old(position)) is Some ==> (*final(position)).unwrap().lock_until
            >= (*old(position)).unwrap().lock_until,
        r is Ok && (*old(position)) is Some ==> (*final(position)).unwrap().stake_amount
            == (*old(position)).unwrap().stake_amount + amount,
        old(pool).wf() ==> final(pool).wf(),
        r is Ok && old(pool).wf() && ((*old(position)) matches Some(p) ==> p.wf())
            ==> (*final(position)).unwrap().wf(),
{
    if !pool.is_active {
        return Err(ErrorCode::PoolInactive);
    }
    if amount == 0 {
        return Err(ErrorCode::InvalidAmount);
    }
    if lock_duration < pool.min_lock_period {
        return Err(ErrorCode::InvalidLockPeriod);
    }
    let principal_vault = match pool.pool_vault {
        Some(v) => v,
        None => {
            return Err(ErrorCode::VaultNotInitialized);
        },
    };
    if pool.reward_vault.is_none() {
        return Err(ErrorCode::VaultNotInitialized);
    }
    if principal_vault != supplied_vault {
        return Err(ErrorCode::InvalidPoolVault);
    }
    let new_total: u64 = match pool.current_staked.checked_add(amount) {
        Some(v) => v,
        None => {
            return Err(ErrorCode::MathOverflow);
        },
    };
    if new_total > pool.max_stake_amount {
        return Err(ErrorCode::PoolCapacityExceeded);
    }
    let updated: UserStake = match *position {
        None => {
            let lock_until: i64 = match now.checked_add(lock_duration) {
                Some(v) => v,
                None => {
                    return Err(ErrorCode::MathOverflow);
                },
            };
            UserStake {
                user,
                pool_id: pool.pool_id,
                stake_amount: amount,
                lock_duration,
                staked_at: now,
                lock_until,
                last_claimed: now,
                pending_rewards: 0,
                is_slashed: false,
            }
        },
        Some(pos) => {
            if pos.pool_id != pool.pool_id {
                return Err(ErrorCode::InvalidPool);
            }
            let new_stake: u64 = match pos.stake_amount.checked_add(amount) {
                Some(v) => v,
                None => {
                    return Err(ErrorCode::MathOverflow);
                },
            };
            let new_lock_until: i64 = match now.checked_add(lock_duration) {
                Some(v) => v,
                None => {
                    return Err(ErrorCode::MathOverflow);
                },
            };
            if new_lock_until > pos.lock_until {
                UserStake { stake_amount: new_stake, lock_duration, lock_until: new_lock_until, ..pos }
            } else {
                UserStake { stake_amount: new_stake, ..pos }
            }
        },
    };
    pool.current_staked = new_total;
    *position = Some(updated);
    Ok(())
}

/// The full transition of `claim_rewards`: on success, the settled position
/// and the reward owed, which the pool's reward vault must pay out only
/// after the position is committed. Settlement is lazy: the reward is
/// computed from the wall-clock time elapsed since the last settlement, and
/// the high-water mark `last_claimed` advances to `now` even when nothing is
/// owed, so no elapsed window is ever counted twice.
pub open spec fn spec_claim(
    pool: StakingPool,
    position: UserStake,
    supplied_vault: Address,
    now: i64,
) -> Result<(UserStake, u64), ErrorCode> {
    if position.pool_id != pool.pool_id {
        Err(ErrorCode::InvalidPool)
    } else if pool.pool_vault is None || pool.reward_vault is None {
        Err(ErrorCode::VaultNotInitialized)
    } else if pool.reward_vault != Some(supplied_vault) {
        Err(ErrorCode::InvalidPoolVault)
    } else if now - position.last_claimed > i64::MAX || now - position.last_claimed < i64::MIN {
        Err(ErrorCode::InvalidTimestamp)
    } else if now <= position.last_claimed {
        Ok((UserStake { last_claimed: now, ..position }, 0u64))
    } else if reward_overflows(
        position.stake_amount,
        now - position.last_claimed,
        pool.base_reward_rate,
        pool.performance_multiplier,
    ) {
        Err(ErrorCode::MathOverflow)
    } else {
        let reward = spec_reward_amount(
            position.stake_amount,
            now - position.last_claimed,
            pool.base_reward_rate,
            pool.performance_multiplier,
        );
        if reward > 0 {
            Ok((UserStake { last_claimed: now, pending_rewards: 0, ..position }, reward as u64))
        } else {
            Ok((UserStake { last_claimed: now, ..position }, 0u64))
        }
    }
}

/// Settles the yield owed to a position and returns the amount the reward
/// vault must transfer to the caller; zero means no transfer. The state is
/// committed before any transfer is issued — checks, effects, then
/// interactions — so a re-entry through the transfer sees `last_claimed`
/// already advanced and can settle nothing twice. On failure the position
/// is unchanged and nothing moves.
pub fn claim_rewards(
    pool: &StakingPool,
    position: &mut UserStake,
    supplied_vault: Address,
    now: i64,
) -> (r: Result<u64, ErrorCode>)
    ensures
        match r {
            Ok(reward) => spec_claim(*pool, *old(position), supplied_vault, now) == Ok::<
                (UserStake, u64),
                ErrorCode,
            >((*final(position), reward)),
            Err(e) => spec_claim(*pool, *old(position), supplied_vault, now) == Err::<
                (UserStake, u64),
                ErrorCode,
            >(e) && *final(position) == *old(position),
        },
        r is Ok ==> final(position).last_claimed == now,
        // With no time elapsed since the last settlement, nothing is owed.
        r matches Ok(reward) ==> (now <= old(position).last_claimed ==> reward == 0),
        old(position).wf() && r is Ok ==> final(position).wf(),
{
    if position.pool_id != pool.pool_id {
        return Err(ErrorCode::InvalidPool);
    }
    if pool.pool_vault.is_none() {
        return Err(ErrorCode::VaultNotInitialized);
    }
    let reward_vault = match pool.reward_vault {
        Some(v) => v,
        None => {
            return Err(ErrorCode::VaultNotInitialized);
        },
    };
    if reward_vault != supplied_vault {
        return Err(ErrorCode::InvalidPoolVault);
    }
    let elapsed: i64 = match now.checked_sub(position.last_claimed) {
        Some(v) => v,
        None => {
            return Err(ErrorCode::InvalidTimestamp);
        },
    };
    if elapsed <= 0 {
        position.last_claimed = now;
        return Ok(0);
    }
    let reward: u64 = match calculate_rewards(
        position.stake_amount,
        elapsed,
        pool.base_reward_rate,
        pool.performance_multiplier,
    ) {
        Ok(v) => v,
        Err(e) => {
            return Err(e);
        },
    };
    position.last_claimed = now;
    if reward > 0 {
        position.pending_rewards = 0;
    }
    Ok(reward)
}

/// What a successful unstake tells the caller to do with the principal
/// vault: transfer `return_amount` back to the user and permanently burn
/// `penalty`, removing it from circulating supply rather than paying a
/// secondary payee. The two always sum to the amount withdrawn.
#[derive(Clone, Copy, Debug, PartialEq, Eq, Structural)]
pub struct UnstakeReceipt {
    /// What the principal vault owes back to the user.
    pub return_amount: u64,
    /// What the principal vault must burn.
    pub penalty: u64,
}

/// The full transition of `unstake`: validation, the early-exit penalty in
/// basis points of the amount withdrawn — zero at or after the lock
/// deadline — a defensive re-check that the penalty never exceeds the
/// amount, and the position with its principal reduced.
pub open spec fn spec_unstake(
    pool: StakingPool,
    position: UserStake,
    supplied_vault: Address,
    amount: u64,
    now: i64,
) -> Result<(UserStake, UnstakeReceipt), ErrorCode> {
    if position.pool_id != pool.pool_id {
        Err(ErrorCode::InvalidPool)
    } else if pool.pool_vault != Some(supplied_vault) {
        Err(ErrorCode::InvalidPoolVault)
    } else if amount == 0 {
        Err(ErrorCode::InvalidAmount)
    } else if amount > position.stake_amount {
        Err(ErrorCode::InsufficientStake)
    } else if position.is_slashed {
        Err(ErrorCode::StakeSlashed)
    } else {
        let penalty = if now < position.lock_until {
            spec_slashing_penalty(amount, position.lock_until - now, pool.slashing_rate)
        } else {
            0
        };
        if penalty > amount {
            Err(ErrorCode::MathOverflow)
        } else {
            Ok(
                (
                    UserStake { stake_amount: (position.stake_amount - amount) as u64, ..position },
                    UnstakeReceipt {
                        return_amount: (amount - penalty) as u64,
                        penalty: penalty as u64,
                    },
                ),
            )
        }
    }
}

/// Withdraws `amount` of principal. Before the lock deadline the withdrawal
/// is early and pays a penalty of `slashing_rate` basis points, which the
/// caller must burn from the principal vault; at or after the deadline the
/// penalty is zero. The position is committed before any value moves. A
/// slashed position can never withdraw through this path. The pool's
/// running total is deliberately not reduced here; it tracks the high-water
/// mark of principal accepted.
pub fn unstake(
    pool: &StakingPool,
    position: &mut UserStake,
    supplied_vault: Address,
    amount: u64,
    now: i64,
) -> (r: Result<UnstakeReceipt, ErrorCode>)
    ensures
        match r {
            Ok(receipt) => spec_unstake(*pool, *old(position), supplied_vault, amount, now) == Ok::<
                (UserStake, UnstakeReceipt),
                ErrorCode,
            >((*final(position), receipt)),
            Err(e) => spec_unstake(*pool, *old(position), supplied_vault, amount, now) == Err::<
                (UserStake, UnstakeReceipt),
                ErrorCode,
            >(e) && *final(position) == *old(position),
        },
        // What goes back to the user and what is burned account for the
        // whole withdrawal: value is never created or silently lost.
        r matches Ok(receipt) ==> receipt.return_amount + receipt.penalty == amount,
        // At or after the lock deadline the withdrawal is penalty-free.
        r matches Ok(receipt) ==> (now >= old(position).lock_until ==> receipt.penalty == 0),
        r is Ok ==> final(position).stake_amount == old(position).stake_amount - amount,
        old(position).wf() && r is Ok ==> final(position).wf(),
{
    if position.pool_id != pool.pool_id {
        return Err(ErrorCode::InvalidPool);
    }
    let principal_vault = match pool.pool_vault {
        Some(v) => v,
        None => {
            return Err(ErrorCode::InvalidPoolVault);
        },
    };
    if principal_vault != supplied_vault {
        return Err(ErrorCode::InvalidPoolVault);
    }
    if amount == 0 {
        return Err(ErrorCode::InvalidAmount);
    }
    if amount > position.stake_amount {
        return Err(ErrorCode::InsufficientStake);
    }
    if position.is_slashed {
        return Err(ErrorCode::StakeSlashed);
    }
    let penalty: u64 = if now < position.lock_until {
        let time_remaining: i64 = match position.lock_until.checked_sub(now) {
            Some(v) => v,
            None => i64::MAX,
        };
        calculate_slashing_penalty(amount, time_remaining, pool.slashing_rate)
    } else {
        0
    };
    if penalty > amount {
        return Err(ErrorCode::MathOverflow);
    }
    let receipt = UnstakeReceipt { return_amount: amount - penalty, penalty };
    position.stake_amount = position.stake_amount - amount;
    Ok(receipt)
}

/// Says whether a position may reclaim its storage: it may exactly when all
/// of its principal has been withdrawn, and no value moves in closing it.
pub fn close_stake(position: &UserStake) -> (r: Result<(), ErrorCode>)
    ensures
        r == if position.stake_amount == 0 {
            Ok::<(), ErrorCode>(())
        } else {
            Err::<(), ErrorCode>(ErrorCode::StakeNotZero)
        },
{
    if position.stake_amount == 0 {
        Ok(())
    } else {
        Err(ErrorCode::StakeNotZero)
    }
}

} // verus!
