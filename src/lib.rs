//! Staking pool with proportional reward distribution through a
//! reward-per-share accumulator.
pub mod key;
pub mod error;
pub mod state;
pub mod accountant;
pub mod ops;
pub mod laws;

pub use accountant::{pending_reward, reward_debt_for, update_accumulator, PRECISION};
pub use error::CustomError;
pub use key::Key;
pub use ops::{claim, distribute, initialize, stake, unstake};
pub use state::{Claim, Distribute, Initialize, Pool, Stake, Transfers, Unstake, UserStake};
