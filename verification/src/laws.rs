//! Laws that relate several operations of the engine, proved once and for
//! all over the spec-level transitions that the operations' contracts pin.

use vstd::prelude::*;

use crate::address::Address;
use crate::errors::ErrorCode;
use crate::ops::{spec_claim, spec_unstake, UnstakeReceipt};
use crate::state::{StakingPool, UserStake};

verus! {

/// Settlement is idempotent: after a successful claim, claiming again at
/// the same instant pays zero and leaves the position exactly as it was.
/// No elapsed window is ever settled twice.
pub proof fn lemma_claim_rewards_idempotent(
    pool: StakingPool,
    position: UserStake,
    supplied_vault: Address,
    now: i64,
)
    requires
        spec_claim(pool, position, supplied_vault, now) is Ok,
    ensures
        ({
            let settled = spec_claim(pool, position, supplied_vault, now).unwrap().0;
            spec_claim(pool, settled, supplied_vault, now) == Ok::<(UserStake, u64), ErrorCode>(
                (settled, 0u64),
            )
        }),
{
}

/// At a slashing rate of 100%, an early unstake returns nothing to the
/// user and burns the whole amount withdrawn.
pub proof fn lemma_unstake_full_rate_burns_all(
    pool: StakingPool,
    position: UserStake,
    supplied_vault: Address,
    amount: u64,
    now: i64,
)
    requires
        pool.slashing_rate == 10000,
        now < position.lock_until,
        spec_unstake(pool, position, supplied_vault, amount, now) is Ok,
    ensures
        spec_unstake(pool, position, supplied_vault, amount, now).unwrap().1 == (UnstakeReceipt {
            return_amount: 0u64,
            penalty: amount,
        }),
{
    vstd::arithmetic::div_mod::lemma_div_by_multiple(amount as int, 10000);
}

} // verus!
