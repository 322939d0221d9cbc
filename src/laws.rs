use vstd::prelude::*;
use crate::accountant::{accrued, pending_of, synced};
use crate::error::CustomError;
use crate::key::Key;
use crate::ops::{claim_outcome, created, stake_outcome, unstake_outcome};
use crate::state::{fresh_position, Claim, Distribute, Initialize, Pool, Stake, Unstake, UserStake};

verus! {

/// Sum of the stake held by a sequence of positions.
pub open spec fn total_of(positions: Seq<UserStake>) -> int
    decreases positions.len(),
{
    if positions.len() == 0 {
        0
    } else {
        total_of(positions.drop_last()) + positions.last().stake_amount
    }
}

/// One operation on a pool and its positions; `index` picks the position, and
/// an index that names no position is refused.
pub enum Action {
    Open { pool: Key, stake_token_mint: Key, bump: u8 },
    Stake { index: int, accounts: Stake, amount: u64 },
    Unstake { index: int, accounts: Unstake, amount: u64 },
    Claim { index: int, accounts: Claim },
    Distribute { accounts: Distribute },
}

/// The pool and its positions after one action, or the error that refused it.
pub open spec fn step(pool: Pool, positions: Seq<UserStake>, action: Action) -> Result<
    (Pool, Seq<UserStake>),
    CustomError,
> {
    match action {
        Action::Open { pool: key, stake_token_mint, bump } => Ok(
            (pool, positions.push(fresh_position(key, stake_token_mint, bump))),
        ),
        Action::Stake { index, accounts, amount } => if 0 <= index < positions.len() {
            match stake_outcome(pool, positions[index], accounts, amount) {
                Ok((p, u, _)) => Ok((p, positions.update(index, u))),
                Err(e) => Err(e),
            }
        } else {
            Err(CustomError::Inconsistent)
        },
        Action::Unstake { index, accounts, amount } => if 0 <= index < positions.len() {
            match unstake_outcome(pool, positions[index], accounts, amount) {
                Ok((p, u, _)) => Ok((p, positions.update(index, u))),
                Err(e) => Err(e),
            }
        } else {
            Err(CustomError::Inconsistent)
        },
        Action::Claim { index, accounts } => if 0 <= index < positions.len() {
            match claim_outcome(pool, positions[index], accounts) {
                Ok((p, u, _)) => Ok((p, positions.update(index, u))),
                Err(e) => Err(e),
            }
        } else {
            Err(CustomError::Inconsistent)
        },
        Action::Distribute { accounts } => match synced(pool, accounts.reward_vault_amount) {
            Ok(p) => Ok((p, positions)),
            Err(e) => Err(e),
        },
    }
}

/// The state after a sequence of actions; a refused action changes nothing.
pub open spec fn run(pool: Pool, positions: Seq<UserStake>, actions: Seq<Action>) -> (
    Pool,
    Seq<UserStake>,
)
    decreases actions.len(),
{
    if actions.len() == 0 {
        (pool, positions)
    } else {
        let (p, ps) = run(pool, positions, actions.drop_last());
        match step(p, ps, actions.last()) {
            Ok(next) => next,
            Err(_) => (p, ps),
        }
    }
}

/// The state reached from a newly created pool with no positions.
pub open spec fn reached(accounts: Initialize, stake_cap: u64, actions: Seq<Action>) -> (
    Pool,
    Seq<UserStake>,
) {
    run(created(accounts, stake_cap), Seq::empty(), actions)
}

/// The pool respects its cap and its total equals the stake of its positions.
pub open spec fn ledger_ok(pool: Pool, positions: Seq<UserStake>) -> bool {
    pool.wf() && pool.total_staked == total_of(positions)
}

proof fn lemma_total_update(positions: Seq<UserStake>, i: int, u: UserStake)
    requires
        0 <= i < positions.len(),
    ensures
        total_of(positions.update(i, u)) == total_of(positions) - positions[i].stake_amount
            + u.stake_amount,
    decreases positions.len(),
{
    let s = positions.update(i, u);
    if i == positions.len() - 1 {
        assert(s.drop_last() =~= positions.drop_last());
    } else {
        lemma_total_update(positions.drop_last(), i, u);
        assert(s.drop_last() =~= positions.drop_last().update(i, u));
    }
}

proof fn lemma_step_keeps_ledger(pool: Pool, positions: Seq<UserStake>, action: Action)
    requires
        ledger_ok(pool, positions),
    ensures
        step(pool, positions, action) matches Ok((p, ps)) ==> ledger_ok(p, ps),
{
    match action {
        Action::Open { pool: key, stake_token_mint, bump } => {
            let ps = positions.push(fresh_position(key, stake_token_mint, bump));
            assert(ps.drop_last() =~= positions);
        },
        Action::Stake { index, accounts, amount } => {
            if 0 <= index < positions.len() {
                lemma_total_update(positions, index, positions[index]);
                if let Ok((p, u, _)) = stake_outcome(pool, positions[index], accounts, amount) {
                    lemma_total_update(positions, index, u);
                }
            }
        },
        Action::Unstake { index, accounts, amount } => {
            if 0 <= index < positions.len() {
                if let Ok((p, u, _)) = unstake_outcome(pool, positions[index], accounts, amount) {
                    lemma_total_update(positions, index, u);
                }
            }
        },
        Action::Claim { index, accounts } => {
            if 0 <= index < positions.len() {
                if let Ok((p, u, _)) = claim_outcome(pool, positions[index], accounts) {
                    lemma_total_update(positions, index, u);
                }
            }
        },
        Action::Distribute { accounts } => {},
    }
}

proof fn lemma_run_keeps_ledger(pool: Pool, positions: Seq<UserStake>, actions: Seq<Action>)
    requires
        ledger_ok(pool, positions),
    ensures
        ledger_ok(run(pool, positions, actions).0, run(pool, positions, actions).1),
    decreases actions.len(),
{
    if actions.len() > 0 {
        lemma_run_keeps_ledger(pool, positions, actions.drop_last());
        let (p, ps) = run(pool, positions, actions.drop_last());
        lemma_step_keeps_ledger(p, ps, actions.last());
    }
}

/// In every state reached from pool creation, the total stake is within the cap.
pub proof fn lemma_reached_within_cap(accounts: Initialize, stake_cap: u64, actions: Seq<Action>)
    ensures
        reached(accounts, stake_cap, actions).0.total_staked <= stake_cap,
{
    lemma_run_keeps_ledger(created(accounts, stake_cap), Seq::empty(), actions);
    lemma_run_keeps_cap_value(created(accounts, stake_cap), Seq::empty(), actions);
}

proof fn lemma_run_keeps_cap_value(pool: Pool, positions: Seq<UserStake>, actions: Seq<Action>)
    ensures
        run(pool, positions, actions).0.stake_cap == pool.stake_cap,
    decreases actions.len(),
{
    if actions.len() > 0 {
        lemma_run_keeps_cap_value(pool, positions, actions.drop_last());
    }
}

/// In every state reached from pool creation, the pool's total stake equals
/// the sum of the stake of all its positions.
pub proof fn lemma_reached_conserves_stake(
    accounts: Initialize,
    stake_cap: u64,
    actions: Seq<Action>,
)
    ensures
        reached(accounts, stake_cap, actions).0.total_staked == total_of(
            reached(accounts, stake_cap, actions).1,
        ),
{
    lemma_run_keeps_ledger(created(accounts, stake_cap), Seq::empty(), actions);
}

proof fn lemma_step_monotone(pool: Pool, positions: Seq<UserStake>, action: Action)
    ensures
        step(pool, positions, action) matches Ok((p, _)) ==> p.acc_reward_per_share
            >= pool.acc_reward_per_share,
{
}

/// The accumulator never decreases, across any sequence of actions from any state.
pub proof fn lemma_accumulator_monotone(pool: Pool, positions: Seq<UserStake>, actions: Seq<Action>)
    ensures
        run(pool, positions, actions).0.acc_reward_per_share >= pool.acc_reward_per_share,
    decreases actions.len(),
{
    if actions.len() > 0 {
        lemma_accumulator_monotone(pool, positions, actions.drop_last());
        let (p, ps) = run(pool, positions, actions.drop_last());
        lemma_step_monotone(p, ps, actions.last());
    }
}

/// Syncing twice at the same custody balance gives the same pool as syncing once.
pub proof fn lemma_sync_idempotent(pool: Pool, balance: u64)
    ensures
        synced(pool, balance) matches Ok(p) ==> synced(p, balance) == Ok::<Pool, CustomError>(p),
{
}

/// A deposit re-baselines the position at the accumulator of that moment: it
/// owes nothing then, and a later sync credits it only the accumulator growth
/// that comes after.
pub proof fn lemma_no_retroactive_capture(
    pool: Pool,
    position: UserStake,
    accounts: Stake,
    amount: u64,
    later_balance: u64,
)
    ensures
        stake_outcome(pool, position, accounts, amount) matches Ok((p, u, _)) ==> {
            &&& u.reward_debt == accrued(u.stake_amount as int, p.acc_reward_per_share as int)
            &&& pending_of(u, p) == Ok::<u128, CustomError>(0)
            &&& synced(p, later_balance) matches Ok(q) ==> (pending_of(u, q) matches Ok(r) ==> r
                == accrued(u.stake_amount as int, q.acc_reward_per_share as int) - accrued(
                u.stake_amount as int,
                p.acc_reward_per_share as int,
            ))
        },
{
}

/// A deposit pays out the reward earned by the stake held before it, at the
/// synced accumulator, and only then changes the stake and re-baselines the
/// debt on the new stake.
pub proof fn lemma_stake_settles_first(pool: Pool, position: UserStake, accounts: Stake, amount: u64)
    ensures
        stake_outcome(pool, position, accounts, amount) matches Ok((p, u, t)) ==> {
            &&& synced(pool, accounts.reward_vault_amount) matches Ok(s) && pending_of(position, s)
                == Ok::<u128, CustomError>(t.reward_payout as u128)
                && p.acc_reward_per_share == s.acc_reward_per_share
            &&& u.stake_amount == position.stake_amount + amount
            &&& u.reward_debt == accrued(u.stake_amount as int, p.acc_reward_per_share as int)
            &&& pending_of(u, p) == Ok::<u128, CustomError>(0)
        },
{
}

/// A withdrawal likewise settles the reward of the stake held before it, then
/// removes the stake and re-baselines the debt on what remains.
pub proof fn lemma_unstake_settles_first(
    pool: Pool,
    position: UserStake,
    accounts: Unstake,
    amount: u64,
)
    ensures
        unstake_outcome(pool, position, accounts, amount) matches Ok((p, u, t)) ==> {
            &&& synced(pool, accounts.reward_vault_amount) matches Ok(s) && pending_of(position, s)
                == Ok::<u128, CustomError>(t.reward_payout as u128)
                && p.acc_reward_per_share == s.acc_reward_per_share
            &&& u.stake_amount == position.stake_amount - amount
            &&& u.reward_debt == accrued(u.stake_amount as int, p.acc_reward_per_share as int)
            &&& pending_of(u, p) == Ok::<u128, CustomError>(0)
        },
{
}

} // verus!
