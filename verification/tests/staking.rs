use spl_staking::claim;
use spl_staking::fund;
use spl_staking::initialize;
use spl_staking::stake;
use spl_staking::unstake;
use spl_staking::ErrorCode;
use spl_staking::Identity;
use spl_staking::StakerInfo;
use spl_staking::StakingPool;

fn id(value: u64) -> Identity {
    Identity { value }
}

fn empty_position() -> StakerInfo {
    StakerInfo {
        key: id(0),
        staked_amount: 0,
        earned_amount: 0,
        last_stake_timestamp: 0,
        staking_pool: id(0),
    }
}

#[test]
fn initialize_zeroes_all_counters() {
    let pool = initialize(id(7), id(9));
    assert_eq!(pool.owner, id(7));
    assert_eq!(pool.staking_token_mint, id(9));
    assert_eq!(pool.total_staked_amount, 0);
    assert_eq!(pool.total_reward_amount, 0);
    assert_eq!(pool.reward_per_second, 0);
}

#[test]
fn fund_adds_to_reserve_only() {
    let mut pool = initialize(id(1), id(2));
    assert_eq!(fund(&mut pool, 500), Ok(()));
    assert_eq!(pool.total_reward_amount, 500);
    assert_eq!(pool.total_staked_amount, 0);
}

#[test]
fn fund_overflow_is_refused_without_change() {
    let mut pool = initialize(id(1), id(2));
    assert_eq!(fund(&mut pool, u64::MAX), Ok(()));
    let before = pool;
    assert_eq!(fund(&mut pool, 1), Err(ErrorCode::ArithmeticOverflow));
    assert_eq!(pool, before);
}

#[test]
fn fund_twice_matches_one_combined_fund() {
    let mut twice = initialize(id(1), id(2));
    assert_eq!(fund(&mut twice, 300), Ok(()));
    assert_eq!(fund(&mut twice, 450), Ok(()));
    let mut once = initialize(id(1), id(2));
    assert_eq!(fund(&mut once, 750), Ok(()));
    assert_eq!(twice, once);
}

#[test]
fn stake_zero_amount_is_refused() {
    let mut pool = initialize(id(1), id(2));
    let mut info = empty_position();
    assert_eq!(
        stake(&mut pool, &mut info, id(3), 0, 1000),
        Err(ErrorCode::ZeroStake)
    );
    assert_eq!(pool, initialize(id(1), id(2)));
    assert_eq!(info, empty_position());
}

#[test]
fn dormant_stake_binds_and_skips_accrual() {
    let mut pool = initialize(id(1), id(2));
    let mut info = empty_position();
    assert_eq!(stake(&mut pool, &mut info, id(3), 100, 1000), Ok(()));
    assert_eq!(info.earned_amount, 0);
    assert_eq!(info.last_stake_timestamp, 1000);
    assert_eq!(info.staked_amount, 100);
    assert_eq!(info.key, id(3));
    assert_eq!(info.staking_pool, id(1));
    assert_eq!(pool.total_staked_amount, 100);
}

#[test]
fn claim_settles_share_of_elapsed_time() {
    let mut pool = initialize(id(1), id(2));
    assert_eq!(fund(&mut pool, 1000), Ok(()));
    let mut info = empty_position();
    assert_eq!(stake(&mut pool, &mut info, id(3), 100, 1000), Ok(()));
    // elapsed 100, rate 100 / 100 = 1, earned 1 * 100 = 100
    assert_eq!(claim(&mut pool, &mut info, 1100), Ok(100));
    assert_eq!(info.earned_amount, 0);
    assert_eq!(info.last_stake_timestamp, 1100);
    assert_eq!(pool.total_reward_amount, 900);
    assert_eq!(info.staked_amount, 100);
    assert_eq!(pool.total_staked_amount, 100);
}

#[test]
fn claim_without_reserve_is_refused_without_change() {
    let mut pool = initialize(id(1), id(2));
    assert_eq!(fund(&mut pool, 99), Ok(()));
    let mut info = empty_position();
    assert_eq!(stake(&mut pool, &mut info, id(3), 100, 1000), Ok(()));
    let pool_before = pool;
    let info_before = info;
    // the settled reward would be 100, one more than the reserve holds
    assert_eq!(
        claim(&mut pool, &mut info, 1100),
        Err(ErrorCode::ArithmeticUnderflow)
    );
    assert_eq!(pool, pool_before);
    assert_eq!(info, info_before);
}

#[test]
fn claim_on_dormant_position_is_refused() {
    let mut pool = initialize(id(1), id(2));
    let mut info = empty_position();
    assert_eq!(claim(&mut pool, &mut info, 1000), Err(ErrorCode::NoStake));
    assert_eq!(info, empty_position());
}

#[test]
fn claim_never_moves_principal() {
    let mut pool = initialize(id(1), id(2));
    assert_eq!(fund(&mut pool, 10_000), Ok(()));
    let mut info = empty_position();
    assert_eq!(stake(&mut pool, &mut info, id(3), 250, 50), Ok(()));
    assert_eq!(claim(&mut pool, &mut info, 300), Ok(250));
    assert_eq!(info.staked_amount, 250);
    assert_eq!(pool.total_staked_amount, 250);
    assert_eq!(claim(&mut pool, &mut info, 301), Ok(1));
    assert_eq!(info.staked_amount, 250);
    assert_eq!(pool.total_staked_amount, 250);
}

#[test]
fn unstake_more_than_staked_is_refused_without_change() {
    let mut pool = initialize(id(1), id(2));
    assert_eq!(fund(&mut pool, 1000), Ok(()));
    let mut info = empty_position();
    assert_eq!(stake(&mut pool, &mut info, id(3), 100, 1000), Ok(()));
    let pool_before = pool;
    let info_before = info;
    assert_eq!(
        unstake(&mut pool, &mut info, 101, 1100),
        Err(ErrorCode::InsufficientStake)
    );
    assert_eq!(pool, pool_before);
    assert_eq!(info, info_before);
}

#[test]
fn unstake_on_empty_position_is_refused() {
    let mut pool = initialize(id(1), id(2));
    let mut info = empty_position();
    assert_eq!(
        unstake(&mut pool, &mut info, 1, 1000),
        Err(ErrorCode::NoStake)
    );
}

#[test]
fn full_unstake_resets_position_to_dormant() {
    let mut pool = initialize(id(1), id(2));
    assert_eq!(fund(&mut pool, 1000), Ok(()));
    let mut info = empty_position();
    assert_eq!(stake(&mut pool, &mut info, id(3), 100, 1000), Ok(()));
    // settled reward 100, payout 100 principal + 100 reward
    assert_eq!(unstake(&mut pool, &mut info, 100, 1100), Ok(200));
    assert_eq!(info.last_stake_timestamp, 0);
    assert_eq!(info.earned_amount, 0);
    assert_eq!(info.staked_amount, 0);
    assert_eq!(pool.total_staked_amount, 0);
    assert_eq!(pool.total_reward_amount, 900);
}

#[test]
fn partial_unstake_moves_checkpoint_to_now() {
    let mut pool = initialize(id(1), id(2));
    assert_eq!(fund(&mut pool, 1000), Ok(()));
    let mut info = empty_position();
    assert_eq!(stake(&mut pool, &mut info, id(3), 100, 1000), Ok(()));
    // elapsed 100, rate 100 / 100 = 1, settled 100; payout 40 + 100
    assert_eq!(unstake(&mut pool, &mut info, 40, 1100), Ok(140));
    assert_eq!(info.last_stake_timestamp, 1100);
    assert_eq!(info.earned_amount, 0);
    assert_eq!(info.staked_amount, 60);
    assert_eq!(pool.total_staked_amount, 60);
    assert_eq!(pool.total_reward_amount, 900);
}

#[test]
fn settlement_on_empty_pool_is_division_by_zero() {
    // Records out of step with each other: the position believes it is
    // active while the pool aggregate holds nothing.
    let mut pool = StakingPool {
        owner: id(1),
        staking_token_mint: id(2),
        total_staked_amount: 0,
        total_reward_amount: 50,
        reward_per_second: 0,
    };
    let mut info = StakerInfo {
        key: id(3),
        staked_amount: 10,
        earned_amount: 0,
        last_stake_timestamp: 500,
        staking_pool: id(1),
    };
    let pool_before = pool;
    let info_before = info;
    assert_eq!(
        claim(&mut pool, &mut info, 600),
        Err(ErrorCode::DivisionByZero)
    );
    assert_eq!(
        unstake(&mut pool, &mut info, 5, 600),
        Err(ErrorCode::DivisionByZero)
    );
    assert_eq!(pool, pool_before);
    assert_eq!(info, info_before);
}

#[test]
fn clock_behind_checkpoint_is_underflow() {
    let mut pool = initialize(id(1), id(2));
    assert_eq!(fund(&mut pool, 1000), Ok(()));
    let mut info = empty_position();
    assert_eq!(stake(&mut pool, &mut info, id(3), 100, 1000), Ok(()));
    assert_eq!(
        claim(&mut pool, &mut info, 999),
        Err(ErrorCode::ArithmeticUnderflow)
    );
    assert_eq!(
        unstake(&mut pool, &mut info, 10, 999),
        Err(ErrorCode::ArithmeticUnderflow)
    );
    assert_eq!(
        stake(&mut pool, &mut info, id(3), 10, 999),
        Err(ErrorCode::ArithmeticUnderflow)
    );
}

#[test]
fn accrued_reward_truncates_toward_zero() {
    let mut pool = initialize(id(1), id(2));
    assert_eq!(fund(&mut pool, 1000), Ok(()));
    let mut info = empty_position();
    // two stakers: 100 from A, 60 from a second position
    assert_eq!(stake(&mut pool, &mut info, id(3), 100, 1000), Ok(()));
    let mut other = empty_position();
    assert_eq!(stake(&mut pool, &mut other, id(4), 60, 1000), Ok(()));
    // elapsed 7, pool 160, position 100: 7 * 100 / 160 = 4.375 -> 4
    assert_eq!(claim(&mut pool, &mut info, 1007), Ok(4));
    assert_eq!(pool.total_reward_amount, 996);
}

#[test]
fn active_stake_settles_over_incremented_balances() {
    let mut pool = initialize(id(1), id(2));
    assert_eq!(fund(&mut pool, 10_000), Ok(()));
    let mut info = empty_position();
    assert_eq!(stake(&mut pool, &mut info, id(3), 100, 1000), Ok(()));
    // second stake of 50 at t=1010: balances grow first, so the accrual
    // sees pool 150 and position 150: 10 * 150 / 150 = 10
    assert_eq!(stake(&mut pool, &mut info, id(3), 50, 1010), Ok(()));
    assert_eq!(info.staked_amount, 150);
    assert_eq!(info.earned_amount, 10);
    assert_eq!(info.last_stake_timestamp, 1010);
    assert_eq!(pool.total_staked_amount, 150);
    // the pending 10 is paid on the next settlement
    assert_eq!(claim(&mut pool, &mut info, 1010), Ok(10));
}

#[test]
fn oversized_accrual_is_refused_as_overflow() {
    let mut pool = StakingPool {
        owner: id(1),
        staking_token_mint: id(2),
        total_staked_amount: 1,
        total_reward_amount: u64::MAX,
        reward_per_second: 0,
    };
    let mut info = StakerInfo {
        key: id(3),
        staked_amount: u64::MAX,
        earned_amount: 0,
        last_stake_timestamp: 1,
        staking_pool: id(1),
    };
    // elapsed u64::MAX - 1 times a full-range stake over a pool of one
    // exceeds the 64-bit range
    assert_eq!(
        claim(&mut pool, &mut info, u64::MAX),
        Err(ErrorCode::ArithmeticOverflow)
    );
}

#[test]
fn stake_overflowing_pool_total_is_refused() {
    let mut pool = StakingPool {
        owner: id(1),
        staking_token_mint: id(2),
        total_staked_amount: u64::MAX,
        total_reward_amount: 0,
        reward_per_second: 0,
    };
    let mut info = empty_position();
    assert_eq!(
        stake(&mut pool, &mut info, id(3), 1, 1000),
        Err(ErrorCode::ArithmeticOverflow)
    );
    assert_eq!(info, empty_position());
}

#[test]
fn stake_after_full_unstake_reactivates_cleanly() {
    let mut pool = initialize(id(1), id(2));
    assert_eq!(fund(&mut pool, 1000), Ok(()));
    let mut info = empty_position();
    assert_eq!(stake(&mut pool, &mut info, id(3), 100, 1000), Ok(()));
    assert_eq!(unstake(&mut pool, &mut info, 100, 1100), Ok(200));
    // the slot is dormant again: a new stake accrues nothing at first
    assert_eq!(stake(&mut pool, &mut info, id(3), 30, 5000), Ok(()));
    assert_eq!(info.staked_amount, 30);
    assert_eq!(info.earned_amount, 0);
    assert_eq!(info.last_stake_timestamp, 5000);
    assert_eq!(pool.total_staked_amount, 30);
}
