use vstd::prelude::*;
use crate::error::CustomError;
use crate::state::{Pool, UserStake};

verus! {

/// Fixed-point scale of the accumulator.
pub const PRECISION: u128 = 1_000_000_000_000;

/// Whole reward units earned by `staked` units of stake at accumulator `acc`.
pub open spec fn accrued(staked: int, acc: int) -> int {
    staked * acc / (PRECISION as int)
}

/// Growth of the accumulator when `delta` reward units are spread over `total` staked units.
pub open spec fn share_of(delta: int, total: int) -> int {
    delta * (PRECISION as int) / total
}

/// The reward debt of `staked` units at accumulator `acc`, or the overflow of
/// the 128-bit product that computes it.
pub open spec fn debt_of(staked: u64, acc: u128) -> Result<u128, CustomError> {
    if staked * acc > u128::MAX {
        Err(CustomError::ArithmeticOverflow)
    } else {
        Ok(accrued(staked as int, acc as int) as u128)
    }
}

/// The pool after the reward custody is measured at `balance`: new reward is
/// folded into the accumulator when anyone is staked, and the balance is recorded.
pub open spec fn synced(pool: Pool, balance: u64) -> Result<Pool, CustomError> {
    if balance < pool.last_reward_balance {
        Err(CustomError::Underflow)
    } else if pool.total_staked == 0 || balance == pool.last_reward_balance {
        Ok(Pool { last_reward_balance: balance, ..pool })
    } else {
        let acc = pool.acc_reward_per_share + share_of(
            balance - pool.last_reward_balance,
            pool.total_staked as int,
        );
        if acc > u128::MAX {
            Err(CustomError::ArithmeticOverflow)
        } else {
            Ok(Pool { acc_reward_per_share: acc as u128, last_reward_balance: balance, ..pool })
        }
    }
}

/// Reward a position has earned since its last settlement.
pub open spec fn pending_of(position: UserStake, pool: Pool) -> Result<u128, CustomError> {
    match debt_of(position.stake_amount, pool.acc_reward_per_share) {
        Err(e) => Err(e),
        Ok(earned) => if earned < position.reward_debt {
            Err(CustomError::Inconsistent)
        } else {
            Ok((earned - position.reward_debt) as u128)
        },
    }
}

/// The reward debt of `staked` units at accumulator `acc`:
/// `staked * acc / PRECISION`, computed in 128 bits.
pub fn reward_debt_for(staked: u64, acc: u128) -> (r: Result<u128, CustomError>)
    ensures
        r == debt_of(staked, acc),
{
    match (staked as u128).checked_mul(acc) {
        None => Err(CustomError::ArithmeticOverflow),
        Some(product) => Ok(product / PRECISION),
    }
}

/// Folds the reward that arrived in custody since the last measurement into
/// the accumulator, and records `current_reward_balance`.
pub fn update_accumulator(pool: &Pool, current_reward_balance: u64) -> (r: Result<Pool, CustomError>)
    ensures
        r == synced(*pool, current_reward_balance),
        r is Ok ==> r->Ok_0.acc_reward_per_share >= pool.acc_reward_per_share,
        r is Ok ==> r->Ok_0.last_reward_balance == current_reward_balance,
        current_reward_balance < pool.last_reward_balance
            ==> r == Err::<Pool, CustomError>(CustomError::Underflow),
{
    if current_reward_balance < pool.last_reward_balance {
        return Err(CustomError::Underflow);
    }
    let delta: u64 = current_reward_balance - pool.last_reward_balance;
    let mut next = *pool;
    next.last_reward_balance = current_reward_balance;
    if pool.total_staked == 0 || delta == 0 {
        return Ok(next);
    }
    assert((delta as u128) * PRECISION <= u128::MAX) by (nonlinear_arith)
        requires delta <= u64::MAX;
    let share: u128 = (delta as u128) * PRECISION / pool.total_staked;
    match pool.acc_reward_per_share.checked_add(share) {
        None => Err(CustomError::ArithmeticOverflow),
        Some(acc) => {
            assert(share >= 0);
            next.acc_reward_per_share = acc;
            Ok(next)
        },
    }
}

/// Reward earned by `position` since its last settlement:
/// `staked * accumulator / PRECISION - reward_debt`.
pub fn pending_reward(position: &UserStake, pool: &Pool) -> (r: Result<u128, CustomError>)
    ensures
        r == pending_of(*position, *pool),
{
    let earned = reward_debt_for(position.stake_amount, pool.acc_reward_per_share)?;
    if earned < position.reward_debt {
        return Err(CustomError::Inconsistent);
    }
    Ok(earned - position.reward_debt)
}

} // verus!
