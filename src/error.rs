use vstd::prelude::*;

verus! {

/// Why an operation on a pool was refused. Every error leaves the pool and
/// the position exactly as they were.
#[derive(Clone, Copy, Debug, PartialEq, Eq, Structural)]
pub enum CustomError {
    /// A deposit would push the pool's total stake above its cap.
    StakeCapExceeded,
    /// The account that receives rewards holds another asset than the pool's reward asset.
    InvalidRewardTokenMint,
    /// The account that supplies stake holds another asset than the pool's stake asset.
    InvalidStakeTokenMint,
    /// A withdrawal asks for more than the position holds.
    InsufficientStake,
    /// A checked addition or multiplication would exceed its integer type.
    ArithmeticOverflow,
    /// A checked subtraction would go below zero (the reward custody shrank, or
    /// cannot cover a payout).
    Underflow,
    /// A position's reward debt exceeds what it has accrued: a broken invariant.
    Inconsistent,
}

impl CustomError {
    /// A short human-readable description.
    pub fn message(&self) -> (r: &'static str) {
        match self {
            CustomError::StakeCapExceeded => "Stake cap exceeded",
            CustomError::InvalidRewardTokenMint => "Invalid reward token mint",
            CustomError::InvalidStakeTokenMint => "Invalid stake token mint",
            CustomError::InsufficientStake => "Insufficient stake to unstake",
            CustomError::ArithmeticOverflow => "Arithmetic overflow",
            CustomError::Underflow => "Arithmetic underflow",
            CustomError::Inconsistent => "Inconsistent reward accounting",
        }
    }
}

} // verus!
