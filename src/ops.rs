use vstd::prelude::*;
use crate::accountant::{
    debt_of, pending_of, pending_reward, reward_debt_for, synced, update_accumulator,
};
use crate::error::CustomError;
use crate::key::Key;
use crate::state::{Claim, Distribute, Initialize, Pool, Stake, Transfers, Unstake, UserStake};

verus! {

/// The pool as created: empty, with a zero accumulator, and with the reward
/// already in custody left out of any distribution.
pub open spec fn created(accounts: Initialize, stake_cap: u64) -> Pool {
    Pool {
        authority: accounts.authority,
        stake_token_mint: accounts.stake_token_mint,
        reward_token_mint: accounts.reward_token_mint,
        stake_token_vault: accounts.stake_token_vault,
        reward_token_vault: accounts.reward_token_vault,
        acc_reward_per_share: 0,
        total_staked: 0,
        last_reward_balance: accounts.reward_vault_amount,
        created_at_epoch: accounts.epoch,
        updated_at_epoch: accounts.epoch,
        created_at_ts: accounts.unix_timestamp,
        updated_at_ts: accounts.unix_timestamp,
        stake_cap,
        bump: accounts.bump,
    }
}

/// Settlement of a position: sync the pool at `balance`, then pay out the
/// position's pending reward from the reward custody. Gives the pool after the
/// payout and the amount paid.
pub open spec fn settled(pool: Pool, position: UserStake, balance: u64, reward_mint: Key) -> Result<
    (Pool, u64),
    CustomError,
> {
    match synced(pool, balance) {
        Err(e) => Err(e),
        Ok(p) => match pending_of(position, p) {
            Err(e) => Err(e),
            Ok(pending) => if pending > 0 && reward_mint != p.reward_token_mint {
                Err(CustomError::InvalidRewardTokenMint)
            } else if pending > p.last_reward_balance {
                Err(CustomError::Underflow)
            } else {
                Ok(
                    (
                        Pool { last_reward_balance: (p.last_reward_balance - pending) as u64, ..p },
                        pending as u64,
                    ),
                )
            },
        },
    }
}

/// The position holding `staked` units, re-baselined at the pool's accumulator.
pub open spec fn rebased(position: UserStake, pool: Pool, staked: u64, now: i64) -> Result<
    UserStake,
    CustomError,
> {
    match debt_of(staked, pool.acc_reward_per_share) {
        Err(e) => Err(e),
        Ok(debt) => Ok(
            UserStake { stake_amount: staked, reward_debt: debt, last_stake_time: now, ..position },
        ),
    }
}

/// Outcome of depositing `amount`: settle, check the cap and the stake asset,
/// add the stake, re-baseline the debt.
pub open spec fn stake_outcome(pool: Pool, position: UserStake, accounts: Stake, amount: u64) -> Result<
    (Pool, UserStake, Transfers),
    CustomError,
> {
    match settled(pool, position, accounts.reward_vault_amount, accounts.user_reward_mint) {
        Err(e) => Err(e),
        Ok((p, payout)) => if p.total_staked + amount > p.stake_cap {
            Err(CustomError::StakeCapExceeded)
        } else if accounts.user_stake_mint != p.stake_token_mint {
            Err(CustomError::InvalidStakeTokenMint)
        } else if position.stake_amount + amount > u64::MAX {
            Err(CustomError::ArithmeticOverflow)
        } else {
            match rebased(
                position,
                p,
                (position.stake_amount + amount) as u64,
                accounts.unix_timestamp,
            ) {
                Err(e) => Err(e),
                Ok(u) => Ok(
                    (
                        Pool { total_staked: (p.total_staked + amount) as u128, ..p },
                        u,
                        Transfers { reward_payout: payout, stake_in: amount, stake_out: 0 },
                    ),
                ),
            }
        },
    }
}

/// Outcome of withdrawing `amount`: check the position holds it, settle,
/// remove the stake, re-baseline the debt.
pub open spec fn unstake_outcome(
    pool: Pool,
    position: UserStake,
    accounts: Unstake,
    amount: u64,
) -> Result<(Pool, UserStake, Transfers), CustomError> {
    if amount > position.stake_amount {
        Err(CustomError::InsufficientStake)
    } else {
        match settled(pool, position, accounts.reward_vault_amount, accounts.user_reward_mint) {
            Err(e) => Err(e),
            Ok((p, payout)) => if p.total_staked < amount {
                Err(CustomError::Underflow)
            } else {
                match rebased(
                    position,
                    p,
                    (position.stake_amount - amount) as u64,
                    accounts.unix_timestamp,
                ) {
                    Err(e) => Err(e),
                    Ok(u) => Ok(
                        (
                            Pool { total_staked: (p.total_staked - amount) as u128, ..p },
                            u,
                            Transfers { reward_payout: payout, stake_in: 0, stake_out: amount },
                        ),
                    ),
                }
            },
        }
    }
}

/// Outcome of a claim: settle and re-baseline the debt; the stake is unchanged.
pub open spec fn claim_outcome(pool: Pool, position: UserStake, accounts: Claim) -> Result<
    (Pool, UserStake, Transfers),
    CustomError,
> {
    match settled(pool, position, accounts.reward_vault_amount, accounts.user_reward_mint) {
        Err(e) => Err(e),
        Ok((p, payout)) => match rebased(
            position,
            p,
            position.stake_amount,
            accounts.unix_timestamp,
        ) {
            Err(e) => Err(e),
            Ok(u) => Ok((p, u, Transfers { reward_payout: payout, stake_in: 0, stake_out: 0 })),
        },
    }
}

/// Creates a pool over the given accounts with ceiling `stake_cap` on the total stake.
pub fn initialize(accounts: &Initialize, stake_cap: u64) -> (r: Pool)
    ensures
        r == created(*accounts, stake_cap),
        r.wf(),
{
    Pool {
        authority: accounts.authority,
        stake_token_mint: accounts.stake_token_mint,
        reward_token_mint: accounts.reward_token_mint,
        stake_token_vault: accounts.stake_token_vault,
        reward_token_vault: accounts.reward_token_vault,
        acc_reward_per_share: 0,
        total_staked: 0,
        last_reward_balance: accounts.reward_vault_amount,
        created_at_epoch: accounts.epoch,
        updated_at_epoch: accounts.epoch,
        created_at_ts: accounts.unix_timestamp,
        updated_at_ts: accounts.unix_timestamp,
        stake_cap,
        bump: accounts.bump,
    }
}

fn settle(pool: &Pool, position: &UserStake, balance: u64, reward_mint: &Key) -> (r: Result<
    (Pool, u64),
    CustomError,
>)
    ensures
        r == settled(*pool, *position, balance, *reward_mint),
{
    let mut p = update_accumulator(pool, balance)?;
    let pending = pending_reward(position, &p)?;
    if pending > 0 && !reward_mint.same(&p.reward_token_mint) {
        return Err(CustomError::InvalidRewardTokenMint);
    }
    if pending > p.last_reward_balance as u128 {
        return Err(CustomError::Underflow);
    }
    let payout = pending as u64;
    p.last_reward_balance = p.last_reward_balance - payout;
    Ok((p, payout))
}

fn rebase(position: &UserStake, pool: &Pool, staked: u64, now: i64) -> (r: Result<
    UserStake,
    CustomError,
>)
    ensures
        r == rebased(*position, *pool, staked, now),
{
    let debt = reward_debt_for(staked, pool.acc_reward_per_share)?;
    let mut u = *position;
    u.stake_amount = staked;
    u.reward_debt = debt;
    u.last_stake_time = now;
    Ok(u)
}

/// Deposits `stake_amount` into the participant's position. On success the
/// pool and position are updated and the transfers to make are returned; on
/// error neither changes.
pub fn stake(pool: &mut Pool, user_stake: &mut UserStake, accounts: &Stake, stake_amount: u64) -> (r:
    Result<Transfers, CustomError>)
    ensures
        match stake_outcome(*old(pool), *old(user_stake), *accounts, stake_amount) {
            Ok((p, u, t)) => r == Ok::<Transfers, CustomError>(t) && *final(pool) == p
                && *final(user_stake) == u,
            Err(e) => r == Err::<Transfers, CustomError>(e) && *final(pool) == *old(pool)
                && *final(user_stake) == *old(user_stake),
        },
        r is Ok ==> final(pool).total_staked == old(pool).total_staked + stake_amount,
        r is Ok ==> final(user_stake).stake_amount == old(user_stake).stake_amount + stake_amount,
        r is Ok ==> final(pool).total_staked <= final(pool).stake_cap,
        r is Ok ==> pending_of(*final(user_stake), *final(pool)) == Ok::<u128, CustomError>(0),
        old(pool).wf() ==> final(pool).wf(),
{
    let (mut p, payout) = settle(pool, user_stake, accounts.reward_vault_amount, &accounts.user_reward_mint)?;
    let total = match p.total_staked.checked_add(stake_amount as u128) {
        None => return Err(CustomError::StakeCapExceeded),
        Some(t) => t,
    };
    if total > p.stake_cap as u128 {
        return Err(CustomError::StakeCapExceeded);
    }
    if !accounts.user_stake_mint.same(&p.stake_token_mint) {
        return Err(CustomError::InvalidStakeTokenMint);
    }
    let staked = match user_stake.stake_amount.checked_add(stake_amount) {
        None => return Err(CustomError::ArithmeticOverflow),
        Some(v) => v,
    };
    let u = rebase(user_stake, &p, staked, accounts.unix_timestamp)?;
    p.total_staked = total;
    *pool = p;
    *user_stake = u;
    Ok(Transfers { reward_payout: payout, stake_in: stake_amount, stake_out: 0 })
}

/// Withdraws `amount` from the participant's position, paying out its pending
/// reward first. On error nothing changes.
pub fn unstake(pool: &mut Pool, user_stake: &mut UserStake, accounts: &Unstake, amount: u64) -> (r:
    Result<Transfers, CustomError>)
    ensures
        match unstake_outcome(*old(pool), *old(user_stake), *accounts, amount) {
            Ok((p, u, t)) => r == Ok::<Transfers, CustomError>(t) && *final(pool) == p
                && *final(user_stake) == u,
            Err(e) => r == Err::<Transfers, CustomError>(e) && *final(pool) == *old(pool)
                && *final(user_stake) == *old(user_stake),
        },
        amount > old(user_stake).stake_amount ==> r == Err::<Transfers, CustomError>(
            CustomError::InsufficientStake,
        ),
        r is Ok ==> final(pool).total_staked == old(pool).total_staked - amount,
        r is Ok ==> final(user_stake).stake_amount == old(user_stake).stake_amount - amount,
        r is Ok ==> pending_of(*final(user_stake), *final(pool)) == Ok::<u128, CustomError>(0),
        old(pool).wf() ==> final(pool).wf(),
{
    if amount > user_stake.stake_amount {
        return Err(CustomError::InsufficientStake);
    }
    let (mut p, payout) = settle(pool, user_stake, accounts.reward_vault_amount, &accounts.user_reward_mint)?;
    if p.total_staked < amount as u128 {
        return Err(CustomError::Underflow);
    }
    let u = rebase(user_stake, &p, user_stake.stake_amount - amount, accounts.unix_timestamp)?;
    p.total_staked = p.total_staked - amount as u128;
    *pool = p;
    *user_stake = u;
    Ok(Transfers { reward_payout: payout, stake_in: 0, stake_out: amount })
}

/// Pays out the participant's pending reward (possibly nothing) and
/// re-baselines the position. The stake is unchanged. On error nothing changes.
pub fn claim(pool: &mut Pool, user_stake: &mut UserStake, accounts: &Claim) -> (r: Result<
    Transfers,
    CustomError,
>)
    ensures
        match claim_outcome(*old(pool), *old(user_stake), *accounts) {
            Ok((p, u, t)) => r == Ok::<Transfers, CustomError>(t) && *final(pool) == p
                && *final(user_stake) == u,
            Err(e) => r == Err::<Transfers, CustomError>(e) && *final(pool) == *old(pool)
                && *final(user_stake) == *old(user_stake),
        },
        r is Ok ==> final(pool).total_staked == old(pool).total_staked,
        r is Ok ==> final(user_stake).stake_amount == old(user_stake).stake_amount,
        r is Ok ==> pending_of(*final(user_stake), *final(pool)) == Ok::<u128, CustomError>(0),
        old(pool).wf() ==> final(pool).wf(),
{
    let (p, payout) = settle(pool, user_stake, accounts.reward_vault_amount, &accounts.user_reward_mint)?;
    let u = rebase(user_stake, &p, user_stake.stake_amount, accounts.unix_timestamp)?;
    *pool = p;
    *user_stake = u;
    Ok(Transfers { reward_payout: payout, stake_in: 0, stake_out: 0 })
}

/// Measures the reward custody and folds any new reward into the accumulator
/// (the standalone reward sync). On error the pool is unchanged.
pub fn distribute(pool: &mut Pool, accounts: &Distribute) -> (r: Result<(), CustomError>)
    ensures
        match synced(*old(pool), accounts.reward_vault_amount) {
            Ok(p) => r is Ok && *final(pool) == p,
            Err(e) => r == Err::<(), CustomError>(e) && *final(pool) == *old(pool),
        },
        r is Ok ==> final(pool).last_reward_balance == accounts.reward_vault_amount,
        r is Ok ==> final(pool).acc_reward_per_share >= old(pool).acc_reward_per_share,
        final(pool).total_staked == old(pool).total_staked,
        old(pool).wf() ==> final(pool).wf(),
{
    let p = update_accumulator(pool, accounts.reward_vault_amount)?;
    *pool = p;
    Ok(())
}

} // verus!
