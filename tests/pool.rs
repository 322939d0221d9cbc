use sol_stake::{
    claim, distribute, initialize, pending_reward, reward_debt_for, stake, unstake,
    update_accumulator, Claim, CustomError, Distribute, Initialize, Key, Pool, Stake, Transfers,
    Unstake, UserStake, PRECISION,
};

fn key(b: u8) -> Key {
    Key::new([b; 32])
}

const STAKE_MINT: u8 = 1;
const REWARD_MINT: u8 = 2;

fn new_pool(stake_cap: u64, reward_vault_amount: u64) -> Pool {
    let accounts = Initialize {
        authority: key(9),
        stake_token_mint: key(STAKE_MINT),
        reward_token_mint: key(REWARD_MINT),
        stake_token_vault: key(3),
        reward_token_vault: key(4),
        reward_vault_amount,
        unix_timestamp: 1_700_000_000,
        epoch: 5,
        bump: 254,
    };
    initialize(&accounts, stake_cap)
}

fn new_position() -> UserStake {
    UserStake::fresh(key(7), key(STAKE_MINT), 253)
}

fn stake_accounts(reward_vault_amount: u64) -> Stake {
    Stake {
        reward_vault_amount,
        user_reward_mint: key(REWARD_MINT),
        user_stake_mint: key(STAKE_MINT),
        unix_timestamp: 10,
    }
}

fn unstake_accounts(reward_vault_amount: u64) -> Unstake {
    Unstake { reward_vault_amount, user_reward_mint: key(REWARD_MINT), unix_timestamp: 20 }
}

fn claim_accounts(reward_vault_amount: u64) -> Claim {
    Claim { reward_vault_amount, user_reward_mint: key(REWARD_MINT), unix_timestamp: 30 }
}

#[test]
fn initialize_starts_empty_and_excludes_resting_reward() {
    let pool = new_pool(1000, 77);
    assert_eq!(pool.total_staked, 0);
    assert_eq!(pool.acc_reward_per_share, 0);
    assert_eq!(pool.last_reward_balance, 77);
    assert_eq!(pool.stake_cap, 1000);
    assert_eq!(pool.created_at_epoch, 5);
    assert_eq!(pool.created_at_ts, 1_700_000_000);
    assert_eq!(pool.bump, 254);
    assert_eq!(pool.stake_token_mint, key(STAKE_MINT));
}

#[test]
fn scenario_deposit_up_to_cap_then_refused() {
    let mut pool = new_pool(1000, 0);
    let mut pos = new_position();
    let t = stake(&mut pool, &mut pos, &stake_accounts(0), 1000).unwrap();
    assert_eq!(t, Transfers { reward_payout: 0, stake_in: 1000, stake_out: 0 });
    assert_eq!(pool.total_staked, 1000);
    assert_eq!(pos.stake_amount, 1000);
    assert_eq!(pos.last_stake_time, 10);
    let before_pool = pool;
    let before_pos = pos;
    let r = stake(&mut pool, &mut pos, &stake_accounts(0), 1);
    assert_eq!(r, Err(CustomError::StakeCapExceeded));
    assert_eq!(pool.total_staked, 1000);
    assert_eq!(pool, before_pool);
    assert_eq!(pos, before_pos);
}

#[test]
fn zero_cap_blocks_all_staking() {
    let mut pool = new_pool(0, 0);
    let mut pos = new_position();
    assert_eq!(stake(&mut pool, &mut pos, &stake_accounts(0), 1), Err(CustomError::StakeCapExceeded));
    assert!(stake(&mut pool, &mut pos, &stake_accounts(0), 0).is_ok());
    assert_eq!(pool.total_staked, 0);
}

#[test]
fn scenario_reward_with_no_stakers_is_not_distributed() {
    let mut pool = new_pool(1000, 0);
    distribute(&mut pool, &Distribute { reward_vault_amount: 500 }).unwrap();
    assert_eq!(pool.acc_reward_per_share, 0);
    assert_eq!(pool.last_reward_balance, 500);
}

#[test]
fn scenario_single_staker_claims_whole_reward() {
    let mut pool = new_pool(1000, 0);
    let mut pos = new_position();
    stake(&mut pool, &mut pos, &stake_accounts(0), 100).unwrap();
    distribute(&mut pool, &Distribute { reward_vault_amount: 1000 }).unwrap();
    assert_eq!(pool.acc_reward_per_share, 10 * PRECISION);
    assert_eq!(pending_reward(&pos, &pool), Ok(1000));
    let t = claim(&mut pool, &mut pos, &claim_accounts(1000)).unwrap();
    assert_eq!(t, Transfers { reward_payout: 1000, stake_in: 0, stake_out: 0 });
    assert_eq!(pool.last_reward_balance, 0);
    assert_eq!(pos.reward_debt, 1000);
    assert_eq!(pos.stake_amount, 100);
    assert_eq!(pending_reward(&pos, &pool), Ok(0));
}

#[test]
fn scenario_withdraw_more_than_staked_changes_nothing() {
    let mut pool = new_pool(1000, 0);
    let mut pos = new_position();
    stake(&mut pool, &mut pos, &stake_accounts(0), 100).unwrap();
    let before_pool = pool;
    let before_pos = pos;
    let r = unstake(&mut pool, &mut pos, &unstake_accounts(400), 101);
    assert_eq!(r, Err(CustomError::InsufficientStake));
    assert_eq!(pool, before_pool);
    assert_eq!(pos, before_pos);
}

#[test]
fn withdraw_pays_reward_then_removes_stake() {
    let mut pool = new_pool(1000, 0);
    let mut pos = new_position();
    stake(&mut pool, &mut pos, &stake_accounts(0), 200).unwrap();
    let t = unstake(&mut pool, &mut pos, &unstake_accounts(400), 50).unwrap();
    assert_eq!(t, Transfers { reward_payout: 400, stake_in: 0, stake_out: 50 });
    assert_eq!(pool.total_staked, 150);
    assert_eq!(pos.stake_amount, 150);
    assert_eq!(pool.acc_reward_per_share, 2 * PRECISION);
    assert_eq!(pos.reward_debt, 300);
    assert_eq!(pool.last_reward_balance, 0);
    assert_eq!(pos.last_stake_time, 20);
}

#[test]
fn sync_twice_is_idempotent() {
    let mut pool = new_pool(1000, 0);
    let mut pos = new_position();
    stake(&mut pool, &mut pos, &stake_accounts(0), 300).unwrap();
    distribute(&mut pool, &Distribute { reward_vault_amount: 700 }).unwrap();
    let once = pool;
    distribute(&mut pool, &Distribute { reward_vault_amount: 700 }).unwrap();
    assert_eq!(pool, once);
    assert_eq!(pool.acc_reward_per_share, 700 * PRECISION / 300);
}

#[test]
fn deposit_before_reward_captures_only_later_growth() {
    let mut pool = new_pool(1000, 0);
    let mut a = new_position();
    let mut b = new_position();
    stake(&mut pool, &mut a, &stake_accounts(0), 100).unwrap();
    distribute(&mut pool, &Distribute { reward_vault_amount: 100 }).unwrap();
    stake(&mut pool, &mut b, &stake_accounts(100), 100).unwrap();
    assert_eq!(b.reward_debt, 100);
    assert_eq!(pending_reward(&b, &pool), Ok(0));
    distribute(&mut pool, &Distribute { reward_vault_amount: 300 }).unwrap();
    assert_eq!(pending_reward(&a, &pool), Ok(200));
    assert_eq!(pending_reward(&b, &pool), Ok(100));
}

#[test]
fn deposit_settles_on_old_stake_and_rebaselines_new_stake() {
    let mut pool = new_pool(1000, 0);
    let mut pos = new_position();
    stake(&mut pool, &mut pos, &stake_accounts(0), 100).unwrap();
    distribute(&mut pool, &Distribute { reward_vault_amount: 250 }).unwrap();
    let t = stake(&mut pool, &mut pos, &stake_accounts(250), 50).unwrap();
    assert_eq!(t.reward_payout, 250);
    assert_eq!(pos.stake_amount, 150);
    let a = pool.acc_reward_per_share;
    assert_eq!(pos.reward_debt, 150 * a / PRECISION);
    assert_eq!(pending_reward(&pos, &pool), Ok(0));
}

#[test]
fn invariants_hold_over_a_sequence() {
    let mut pool = new_pool(500, 0);
    let mut a = new_position();
    let mut b = new_position();
    let mut vault: u64 = 0;
    let mut acc = pool.acc_reward_per_share;
    for round in 0..6u64 {
        if let Ok(t) = stake(&mut pool, &mut a, &stake_accounts(vault), 90) {
            vault -= t.reward_payout;
        }
        vault = pool.last_reward_balance + 37 * round;
        let _ = distribute(&mut pool, &Distribute { reward_vault_amount: vault });
        assert!(pool.acc_reward_per_share >= acc);
        acc = pool.acc_reward_per_share;
        if let Ok(t) = stake(&mut pool, &mut b, &stake_accounts(vault), 40) {
            vault -= t.reward_payout;
        }
        if let Ok(t) = unstake(&mut pool, &mut a, &unstake_accounts(vault), 30) {
            vault -= t.reward_payout;
        }
        if let Ok(t) = claim(&mut pool, &mut b, &claim_accounts(vault)) {
            vault -= t.reward_payout;
        }
        assert!(pool.acc_reward_per_share >= acc);
        acc = pool.acc_reward_per_share;
        assert!(pool.total_staked <= pool.stake_cap as u128);
        assert_eq!(pool.total_staked, a.stake_amount as u128 + b.stake_amount as u128);
        assert_eq!(pool.last_reward_balance, vault);
    }
}

#[test]
fn update_accumulator_truncates_toward_zero() {
    let mut pool = new_pool(1000, 0);
    let mut pos = new_position();
    stake(&mut pool, &mut pos, &stake_accounts(0), 3).unwrap();
    let p = update_accumulator(&pool, 1).unwrap();
    assert_eq!(p.acc_reward_per_share, 333_333_333_333);
    assert_eq!(p.last_reward_balance, 1);
    assert_eq!(pending_reward(&pos, &p), Ok(0));
    assert_eq!(pool.acc_reward_per_share, 0);
}

#[test]
fn custody_decrease_is_underflow() {
    let mut pool = new_pool(1000, 50);
    let before = pool;
    assert_eq!(distribute(&mut pool, &Distribute { reward_vault_amount: 49 }), Err(CustomError::Underflow));
    assert_eq!(pool, before);
}

#[test]
fn payout_beyond_custody_is_underflow() {
    let mut pool = new_pool(1000, 0);
    let mut pos = new_position();
    stake(&mut pool, &mut pos, &stake_accounts(0), 10).unwrap();
    pool.acc_reward_per_share = 10 * PRECISION;
    let before = pool;
    assert_eq!(claim(&mut pool, &mut pos, &claim_accounts(0)), Err(CustomError::Underflow));
    assert_eq!(pool, before);
}

#[test]
fn wrong_reward_mint_is_refused_when_reward_is_due() {
    let mut pool = new_pool(1000, 0);
    let mut pos = new_position();
    stake(&mut pool, &mut pos, &stake_accounts(0), 10).unwrap();
    let bad = Claim { reward_vault_amount: 100, user_reward_mint: key(42), unix_timestamp: 0 };
    assert_eq!(claim(&mut pool, &mut pos, &bad), Err(CustomError::InvalidRewardTokenMint));
    let idle = Claim { reward_vault_amount: 0, user_reward_mint: key(42), unix_timestamp: 0 };
    assert!(claim(&mut pool, &mut pos, &idle).is_ok());
}

#[test]
fn wrong_stake_mint_is_refused() {
    let mut pool = new_pool(1000, 0);
    let mut pos = new_position();
    let mut accounts = stake_accounts(0);
    accounts.user_stake_mint = key(REWARD_MINT);
    assert_eq!(stake(&mut pool, &mut pos, &accounts, 10), Err(CustomError::InvalidStakeTokenMint));
    assert_eq!(pool.total_staked, 0);
}

#[test]
fn debt_above_accrued_is_inconsistent() {
    let pool = new_pool(1000, 0);
    let mut pos = new_position();
    pos.reward_debt = 1;
    assert_eq!(pending_reward(&pos, &pool), Err(CustomError::Inconsistent));
}

#[test]
fn oversized_product_is_overflow() {
    assert_eq!(reward_debt_for(u64::MAX, u128::MAX), Err(CustomError::ArithmeticOverflow));
    assert_eq!(reward_debt_for(3, 2 * PRECISION), Ok(6));
    let mut pool = new_pool(u64::MAX, 0);
    pool.total_staked = 1;
    pool.acc_reward_per_share = u128::MAX;
    let before = pool;
    assert_eq!(distribute(&mut pool, &Distribute { reward_vault_amount: 1 }), Err(CustomError::ArithmeticOverflow));
    assert_eq!(pool, before);
}

#[test]
fn keys_compare_by_bytes() {
    assert!(key(1).same(&key(1)));
    let mut b = [1u8; 32];
    b[31] = 0;
    assert!(!key(1).same(&Key::new(b)));
}

#[test]
fn error_messages() {
    assert_eq!(CustomError::StakeCapExceeded.message(), "Stake cap exceeded");
    assert_eq!(CustomError::InsufficientStake.message(), "Insufficient stake to unstake");
}
