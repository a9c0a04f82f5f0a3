//! Fixed-point reward and penalty formulas.
//!
//! All intermediate arithmetic runs in 128 bits, wide enough for the full
//! range of 64-bit inputs; any product that does not fit, or a final amount
//! that does not fit in 64 bits, is an explicit `MathOverflow`, never a
//! silent wraparound. Division truncates toward zero: sub-unit remainders
//! are forfeited, not carried forward.

use vstd::prelude::*;

use crate::errors::ErrorCode;

verus! {

/// Fixed-point scale of `base_reward_rate`: a rate of 500 pays 0.0005 tokens
/// per staked token per second.
pub const PRECISION_MULT: u128 = 1_000_000;

/// Basis-point denominator: 10000 basis points are 100%.
pub const BPS_DENOMINATOR: u128 = 10_000;

/// The reward owed for `elapsed` seconds on `stake_amount` principal:
/// `stake_amount * elapsed * base_rate`, scaled by the performance
/// multiplier in basis points, then brought down by the fixed-point scale.
/// Nothing is owed for a non-positive elapsed time.
pub open spec fn spec_reward_amount(
    stake_amount: u64,
    elapsed: int,
    base_rate: u64,
    perf_mult: u64,
) -> int {
    if elapsed <= 0 {
        0
    } else {
        (stake_amount * elapsed * base_rate * perf_mult / (BPS_DENOMINATOR as int)) / (
        PRECISION_MULT as int)
    }
}

/// When the reward computation fails: an intermediate 128-bit product
/// overflows, or the final amount does not fit in 64 bits.
pub open spec fn reward_overflows(
    stake_amount: u64,
    elapsed: int,
    base_rate: u64,
    perf_mult: u64,
) -> bool {
    elapsed > 0 && {
        ||| stake_amount * elapsed > u128::MAX
        ||| stake_amount * elapsed * base_rate > u128::MAX
        ||| stake_amount * elapsed * base_rate * perf_mult > u128::MAX
        ||| spec_reward_amount(stake_amount, elapsed, base_rate, perf_mult) > u64::MAX
    }
}

/// Computes the reward owed for `time_staked` seconds, or `MathOverflow`
/// exactly when the mathematical result cannot be represented.
pub fn calculate_rewards(
    stake_amount: u64,
    time_staked: i64,
    base_rate: u64,
    perf_mult: u64,
) -> (r: Result<u64, ErrorCode>)
    ensures
        r == if reward_overflows(stake_amount, time_staked as int, base_rate, perf_mult) {
            Err::<u64, ErrorCode>(ErrorCode::MathOverflow)
        } else {
            Ok::<u64, ErrorCode>(
                spec_reward_amount(stake_amount, time_staked as int, base_rate, perf_mult) as u64,
            )
        },
{
    if time_staked <= 0 {
        return Ok(0);
    }
    let stake_wide: u128 = stake_amount as u128;
    let elapsed_wide: u128 = time_staked as u128;
    let stake_time: u128 = match stake_wide.checked_mul(elapsed_wide) {
        Some(v) => v,
        None => {
            return Err(ErrorCode::MathOverflow);
        },
    };
    let base: u128 = match stake_time.checked_mul(base_rate as u128) {
        Some(v) => v,
        None => {
            return Err(ErrorCode::MathOverflow);
        },
    };
    let scaled: u128 = match base.checked_mul(perf_mult as u128) {
        Some(v) => v,
        None => {
            return Err(ErrorCode::MathOverflow);
        },
    };
    let bonus: u128 = scaled / BPS_DENOMINATOR;
    let reward: u128 = bonus / PRECISION_MULT;
    if reward > u64::MAX as u128 {
        return Err(ErrorCode::MathOverflow);
    }
    Ok(reward as u64)
}

/// The early-exit penalty on `amount`: `slashing_rate` basis points of it,
/// with floor division, clamped into 64 bits. No penalty falls due once no
/// lock time remains. The clamp is reachable only for a rate over 100%,
/// which no well-formed pool carries.
pub open spec fn spec_slashing_penalty(
    amount: u64,
    time_remaining: int,
    slashing_rate: u16,
) -> int {
    if time_remaining <= 0 {
        0
    } else {
        let p = amount * slashing_rate / (BPS_DENOMINATOR as int);
        if p > u64::MAX {
            u64::MAX as int
        } else {
            p
        }
    }
}

/// Computes the early-exit penalty. At any rate of 100% or below the
/// penalty never exceeds the amount being withdrawn.
pub fn calculate_slashing_penalty(amount: u64, time_remaining: i64, slashing_rate: u16) -> (r: u64)
    ensures
        r == spec_slashing_penalty(amount, time_remaining as int, slashing_rate),
        slashing_rate <= 10000 ==> r <= amount,
{
    if time_remaining <= 0 {
        return 0;
    }
    proof {
        vstd::arithmetic::mul::lemma_mul_upper_bound(
            amount as int,
            u64::MAX as int,
            slashing_rate as int,
            u16::MAX as int,
        );
        if slashing_rate <= 10000 {
            lemma_bps_fraction_le_whole(amount as int, slashing_rate as int);
        }
    }
    let penalty: u128 = (amount as u128) * (slashing_rate as u128) / BPS_DENOMINATOR;
    if penalty > u64::MAX as u128 {
        u64::MAX
    } else {
        penalty as u64
    }
}

/// A basis-point fraction of an amount, at 10000 basis points or fewer,
/// never exceeds the amount itself.
pub proof fn lemma_bps_fraction_le_whole(amount: int, rate: int)
    requires
        0 <= amount,
        0 <= rate <= 10000,
    ensures
        amount * rate / 10000 <= amount,
{
    vstd::arithmetic::mul::lemma_mul_inequality(rate, 10000, amount);
    vstd::arithmetic::mul::lemma_mul_is_commutative(amount, rate);
    vstd::arithmetic::mul::lemma_mul_is_commutative(amount, 10000);
    vstd::arithmetic::div_mod::lemma_div_is_ordered(amount * rate, amount * 10000, 10000);
    vstd::arithmetic::div_mod::lemma_div_by_multiple(amount, 10000);
}

} // verus!
