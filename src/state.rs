use vstd::prelude::*;
use crate::key::Key;

verus! {

/// One staking pool: its configuration and the aggregate accounting state.
#[derive(Clone, Copy, Debug, PartialEq, Eq)]
pub struct Pool {
    pub authority: Key,
    pub stake_token_mint: Key,
    pub reward_token_mint: Key,
    pub stake_token_vault: Key,
    pub reward_token_vault: Key,
    /// Cumulative reward per unit of stake, scaled by `PRECISION`; never decreases.
    pub acc_reward_per_share: u128,
    /// Sum of the stake of every position of this pool.
    pub total_staked: u128,
    /// Reward custody balance as last measured (less the payouts made since).
    pub last_reward_balance: u64,
    pub created_at_epoch: u64,
    pub updated_at_epoch: u64,
    pub created_at_ts: i64,
    pub updated_at_ts: i64,
    /// Ceiling on `total_staked`.
    pub stake_cap: u64,
    pub bump: u8,
}

impl Pool {
    /// The pool's own invariant: the total stake respects the cap.
    pub open spec fn wf(self) -> bool {
        self.total_staked <= self.stake_cap
    }
}

/// One participant's position in one pool.
#[derive(Clone, Copy, Debug, PartialEq, Eq)]
pub struct UserStake {
    /// The pool this position belongs to.
    pub pool: Key,
    /// The asset staked.
    pub stake_token_mint: Key,
    pub stake_amount: u64,
    pub last_stake_time: i64,
    /// Reward already accounted for at the accumulator value of the last settlement.
    pub reward_debt: u128,
    pub bump: u8,
}

impl UserStake {
    /// A position as it is opened on a participant's first deposit: nothing
    /// staked and nothing owed.
    pub fn fresh(pool: Key, stake_token_mint: Key, bump: u8) -> (r: UserStake)
        ensures
            r == fresh_position(pool, stake_token_mint, bump),
    {
        UserStake { pool, stake_token_mint, stake_amount: 0, last_stake_time: 0, reward_debt: 0, bump }
    }
}

/// The value of a newly opened position.
pub open spec fn fresh_position(pool: Key, stake_token_mint: Key, bump: u8) -> UserStake {
    UserStake { pool, stake_token_mint, stake_amount: 0, last_stake_time: 0, reward_debt: 0, bump }
}

/// Token movements that an accepted operation asks the custody layer to make.
#[derive(Clone, Copy, Debug, PartialEq, Eq, Structural)]
pub struct Transfers {
    /// Reward units from the reward custody to the participant.
    pub reward_payout: u64,
    /// Stake units from the participant to the stake custody.
    pub stake_in: u64,
    /// Stake units from the stake custody to the participant.
    pub stake_out: u64,
}

/// What pool creation reads from its accounts and the clock.
#[derive(Clone, Copy, Debug, PartialEq, Eq)]
pub struct Initialize {
    pub authority: Key,
    pub stake_token_mint: Key,
    pub reward_token_mint: Key,
    pub stake_token_vault: Key,
    pub reward_token_vault: Key,
    /// Balance already resting in the reward custody.
    pub reward_vault_amount: u64,
    pub unix_timestamp: i64,
    pub epoch: u64,
    pub bump: u8,
}

/// What a deposit reads from its accounts and the clock.
#[derive(Clone, Copy, Debug, PartialEq, Eq)]
pub struct Stake {
    /// Current balance of the reward custody.
    pub reward_vault_amount: u64,
    /// Asset of the account that receives the participant's rewards.
    pub user_reward_mint: Key,
    /// Asset of the account that supplies the stake.
    pub user_stake_mint: Key,
    pub unix_timestamp: i64,
}

/// What a withdrawal reads from its accounts and the clock.
#[derive(Clone, Copy, Debug, PartialEq, Eq)]
pub struct Unstake {
    pub reward_vault_amount: u64,
    pub user_reward_mint: Key,
    pub unix_timestamp: i64,
}

/// What a reward claim reads from its accounts and the clock.
#[derive(Clone, Copy, Debug, PartialEq, Eq)]
pub struct Claim {
    pub reward_vault_amount: u64,
    pub user_reward_mint: Key,
    pub unix_timestamp: i64,
}

/// What a reward sync reads: the reward custody balance.
#[derive(Clone, Copy, Debug, PartialEq, Eq)]
pub struct Distribute {
    pub reward_vault_amount: u64,
}

} // verus!
