//! The stake ledger: opening a position, topping it up, and closing it.

use staking_pool::address::{derive_vault_address, Address, VaultKind};
use staking_pool::errors::ErrorCode;
use staking_pool::ops::{close_stake, create_pool, init_pool_vault, init_reward_vault, initialize, stake};
use staking_pool::state::{StakingPool, UserStake};

fn addr(tag: u64) -> Address {
    Address { w0: tag, w1: tag, w2: tag, w3: tag }
}

/// A fresh pool with both vaults bound, together with the bound principal
/// and reward vault addresses.
fn bound_pool(max_stake: u64, min_lock: i64, rate: u16, base_rate: u64) -> (StakingPool, Address, Address) {
    let admin = addr(7);
    let mut state = initialize(admin);
    let mut pool = create_pool(&mut state, admin, 42, addr(3), max_stake, min_lock, rate, base_rate, 1_000)
        .expect("creation should succeed");
    let pv = derive_vault_address(VaultKind::Principal, 42);
    let rv = derive_vault_address(VaultKind::Reward, 42);
    init_pool_vault(&mut pool, admin, pv).expect("binding should succeed");
    init_reward_vault(&mut pool, admin, rv).expect("binding should succeed");
    (pool, pv, rv)
}

#[test]
fn stake_opens_a_position_with_the_chosen_lock() {
    let (mut pool, pv, _rv) = bound_pool(1_000_000, 60, 500, 500);
    let user = addr(5);
    let mut position: Option<UserStake> = None;
    let r = stake(&mut pool, &mut position, user, pv, 1_000, 90, 2_000);
    assert_eq!(r, Ok(()));
    assert_eq!(pool.current_staked, 1_000);
    assert!(pool.current_staked <= pool.max_stake_amount);
    let pos = position.expect("a position should have been opened");
    assert_eq!(pos.user, user);
    assert_eq!(pos.pool_id, 42);
    assert_eq!(pos.stake_amount, 1_000);
    assert_eq!(pos.lock_duration, 90);
    assert_eq!(pos.staked_at, 2_000);
    assert_eq!(pos.lock_until, 2_090);
    assert_eq!(pos.last_claimed, 2_000);
    assert_eq!(pos.pending_rewards, 0);
    assert!(!pos.is_slashed);
}

#[test]
fn stake_rejects_a_zero_amount() {
    let (mut pool, pv, _rv) = bound_pool(1_000_000, 60, 500, 500);
    let mut position: Option<UserStake> = None;
    let r = stake(&mut pool, &mut position, addr(5), pv, 0, 90, 2_000);
    assert_eq!(r, Err(ErrorCode::InvalidAmount));
    assert_eq!(pool.current_staked, 0);
    assert!(position.is_none());
}

#[test]
fn stake_rejects_unbound_vaults() {
    let admin = addr(7);
    let mut state = initialize(admin);
    let mut pool = create_pool(&mut state, admin, 42, addr(3), 1_000_000, 60, 500, 500, 1_000)
        .expect("creation should succeed");
    let pv = derive_vault_address(VaultKind::Principal, 42);
    let mut position: Option<UserStake> = None;
    let r = stake(&mut pool, &mut position, addr(5), pv, 1_000, 90, 2_000);
    assert_eq!(r, Err(ErrorCode::VaultNotInitialized));

    // With only the principal vault bound the reward vault is still absent.
    init_pool_vault(&mut pool, admin, pv).expect("binding should succeed");
    let r = stake(&mut pool, &mut position, addr(5), pv, 1_000, 90, 2_000);
    assert_eq!(r, Err(ErrorCode::VaultNotInitialized));
    assert_eq!(pool.current_staked, 0);
}

#[test]
fn stake_rejects_a_vault_other_than_the_bound_one() {
    let (mut pool, _pv, rv) = bound_pool(1_000_000, 60, 500, 500);
    let mut position: Option<UserStake> = None;
    let r = stake(&mut pool, &mut position, addr(5), rv, 1_000, 90, 2_000);
    assert_eq!(r, Err(ErrorCode::InvalidPoolVault));
}

#[test]
fn stake_rejects_an_inactive_pool() {
    let (mut pool, pv, _rv) = bound_pool(1_000_000, 60, 500, 500);
    pool.is_active = false;
    let mut position: Option<UserStake> = None;
    let r = stake(&mut pool, &mut position, addr(5), pv, 1_000, 90, 2_000);
    assert_eq!(r, Err(ErrorCode::PoolInactive));
}

#[test]
fn stake_rejects_a_lock_below_the_pool_minimum() {
    let (mut pool, pv, _rv) = bound_pool(1_000_000, 60, 500, 500);
    let mut position: Option<UserStake> = None;
    let r = stake(&mut pool, &mut position, addr(5), pv, 1_000, 59, 2_000);
    assert_eq!(r, Err(ErrorCode::InvalidLockPeriod));
}

#[test]
fn stake_beyond_capacity_fails_and_leaves_the_total_unchanged() {
    let (mut pool, pv, _rv) = bound_pool(1_500, 60, 500, 500);
    let mut position: Option<UserStake> = None;
    assert_eq!(stake(&mut pool, &mut position, addr(5), pv, 1_000, 90, 2_000), Ok(()));
    assert_eq!(pool.current_staked, 1_000);
    let r = stake(&mut pool, &mut position, addr(5), pv, 501, 90, 2_100);
    assert_eq!(r, Err(ErrorCode::PoolCapacityExceeded));
    assert_eq!(pool.current_staked, 1_000);
    assert_eq!(position.expect("the first stake stands").stake_amount, 1_000);
}

#[test]
fn stake_reports_overflow_of_the_running_total() {
    let (mut pool, pv, _rv) = bound_pool(u64::MAX, 60, 500, 500);
    let mut position: Option<UserStake> = None;
    assert_eq!(stake(&mut pool, &mut position, addr(5), pv, u64::MAX, 90, 2_000), Ok(()));
    let r = stake(&mut pool, &mut position, addr(5), pv, 1, 90, 2_100);
    assert_eq!(r, Err(ErrorCode::MathOverflow));
    assert_eq!(pool.current_staked, u64::MAX);
}

#[test]
fn stake_reports_overflow_of_the_lock_deadline() {
    let (mut pool, pv, _rv) = bound_pool(1_000_000, 60, 500, 500);
    let mut position: Option<UserStake> = None;
    let r = stake(&mut pool, &mut position, addr(5), pv, 1_000, 90, i64::MAX);
    assert_eq!(r, Err(ErrorCode::MathOverflow));
    assert!(position.is_none());
}

#[test]
fn top_up_adds_principal_and_extends_the_lock() {
    let (mut pool, pv, _rv) = bound_pool(1_000_000, 60, 500, 500);
    let user = addr(5);
    let mut position: Option<UserStake> = None;
    assert_eq!(stake(&mut pool, &mut position, user, pv, 1_000, 90, 2_000), Ok(()));
    assert_eq!(stake(&mut pool, &mut position, user, pv, 500, 120, 2_050), Ok(()));
    let pos = position.expect("the position stands");
    assert_eq!(pos.stake_amount, 1_500);
    assert_eq!(pool.current_staked, 1_500);
    // The fresh deadline 2_050 + 120 lies beyond 2_090, so the lock extends.
    assert_eq!(pos.lock_until, 2_170);
    assert_eq!(pos.lock_duration, 120);
    // The opening time never moves.
    assert_eq!(pos.staked_at, 2_000);
}

#[test]
fn top_up_with_a_shorter_lock_never_shortens_the_deadline() {
    let (mut pool, pv, _rv) = bound_pool(1_000_000, 60, 500, 500);
    let user = addr(5);
    let mut position: Option<UserStake> = None;
    assert_eq!(stake(&mut pool, &mut position, user, pv, 1_000, 500, 2_000), Ok(()));
    let before = position.expect("the position stands").lock_until;
    assert_eq!(before, 2_500);
    assert_eq!(stake(&mut pool, &mut position, user, pv, 500, 60, 2_010), Ok(()));
    let pos = position.expect("the position stands");
    // The fresh deadline 2_010 + 60 lies before 2_500: nothing shortens.
    assert_eq!(pos.lock_until, 2_500);
    assert!(pos.lock_until >= before);
    assert_eq!(pos.lock_duration, 500);
    assert_eq!(pos.stake_amount, 1_500);
}

#[test]
fn top_up_rejects_a_position_of_another_pool() {
    let (mut pool, pv, _rv) = bound_pool(1_000_000, 60, 500, 500);
    let user = addr(5);
    let mut position: Option<UserStake> = None;
    assert_eq!(stake(&mut pool, &mut position, user, pv, 1_000, 90, 2_000), Ok(()));
    let mut foreign = position;
    if let Some(p) = &mut foreign {
        p.pool_id = 43;
    }
    let r = stake(&mut pool, &mut foreign, user, pv, 500, 90, 2_050);
    assert_eq!(r, Err(ErrorCode::InvalidPool));
    assert_eq!(pool.current_staked, 1_000);
}

#[test]
fn top_up_reports_overflow_of_the_position_principal() {
    let (mut pool, pv, _rv) = bound_pool(u64::MAX, 60, 500, 500);
    let user = addr(5);
    let mut position: Option<UserStake> = None;
    assert_eq!(stake(&mut pool, &mut position, user, pv, u64::MAX - 10, 90, 2_000), Ok(()));
    // The pool still has room (ceiling u64::MAX) but the position would wrap.
    let mut shrunk = pool;
    shrunk.current_staked = 0;
    let r = stake(&mut shrunk, &mut position, user, pv, 11, 90, 2_100);
    assert_eq!(r, Err(ErrorCode::MathOverflow));
}

#[test]
fn close_stake_refuses_a_position_still_holding_principal() {
    let (mut pool, pv, _rv) = bound_pool(1_000_000, 60, 500, 500);
    let mut position: Option<UserStake> = None;
    assert_eq!(stake(&mut pool, &mut position, addr(5), pv, 1_000, 90, 2_000), Ok(()));
    let pos = position.expect("the position stands");
    assert_eq!(close_stake(&pos), Err(ErrorCode::StakeNotZero));
}

#[test]
fn close_stake_accepts_an_emptied_position() {
    let (mut pool, pv, _rv) = bound_pool(1_000_000, 60, 500, 500);
    let mut position: Option<UserStake> = None;
    assert_eq!(stake(&mut pool, &mut position, addr(5), pv, 1_000, 90, 2_000), Ok(()));
    let mut pos = position.expect("the position stands");
    pos.stake_amount = 0;
    assert_eq!(close_stake(&pos), Ok(()));
}
