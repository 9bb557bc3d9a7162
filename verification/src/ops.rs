use vstd::prelude::*;

use crate::accrual::accrue;
use crate::accrual::spec_accrue;
use crate::error::ErrorCode;
use crate::state::is_dormant;
use crate::state::Identity;
use crate::state::StakerInfo;
use crate::state::StakingPool;

verus! {

/// The ledger a fund call leaves behind: the amount moves into the reward
/// reserve by checked addition, nothing else changes.
pub open spec fn spec_fund(pool: StakingPool, amount: u64) -> Result<StakingPool, ErrorCode> {
    if pool.total_reward_amount + amount > u64::MAX {
        Err(ErrorCode::ArithmeticOverflow)
    } else {
        Ok(StakingPool { total_reward_amount: (pool.total_reward_amount + amount) as u64, ..pool })
    }
}

/// Create the pool record for a new staking pool: both counters and the
/// rate parameter start at zero. Whether a record already exists under this
/// owner is the record store's question; re-initializing a live pool would
/// silently wipe its counters, so callers must create each pool only once.
pub fn initialize(owner: Identity, staking_token_mint: Identity) -> (pool: StakingPool)
    ensures
        pool.owner == owner,
        pool.staking_token_mint == staking_token_mint,
        pool.total_staked_amount == 0,
        pool.total_reward_amount == 0,
        pool.reward_per_second == 0,
{
    StakingPool {
        owner,
        staking_token_mint,
        total_staked_amount: 0,
        total_reward_amount: 0,
        reward_per_second: 0,
    }
}

/// Add `amount` to the pool's reward reserve. The matching asset movement
/// (funder to pool custody) is the caller's transfer collaborator's job and
/// must complete before the new ledger is committed.
pub fn fund(pool: &mut StakingPool, amount: u64) -> (r: Result<(), ErrorCode>)
    ensures
        (match spec_fund(*old(pool), amount) {
            Ok(next) => r is Ok && *final(pool) == next,
            Err(e) => r is Err && r->Err_0 == e && *final(pool) == *old(pool),
        }),
        r is Ok <==> old(pool).total_reward_amount + amount <= u64::MAX,
        r is Ok ==> final(pool).total_reward_amount == old(pool).total_reward_amount + amount,
        final(pool).total_staked_amount == old(pool).total_staked_amount,
{
    if amount > u64::MAX - pool.total_reward_amount {
        return Err(ErrorCode::ArithmeticOverflow);
    }
    pool.total_reward_amount = pool.total_reward_amount + amount;
    Ok(())
}

/// The pool and position a stake call leaves behind. Principal counters grow
/// first; a dormant position is reactivated with a clean reward slate and
/// bound to its staker and pool, while an active one settles its pending
/// reward over the already-incremented balances before the checkpoint moves.
pub open spec fn spec_stake(
    pool: StakingPool,
    info: StakerInfo,
    staker: Identity,
    amount: u64,
    now: u64,
) -> Result<(StakingPool, StakerInfo), ErrorCode> {
    if amount == 0 {
        Err(ErrorCode::ZeroStake)
    } else if pool.total_staked_amount + amount > u64::MAX {
        Err(ErrorCode::ArithmeticOverflow)
    } else if info.staked_amount + amount > u64::MAX {
        Err(ErrorCode::ArithmeticOverflow)
    } else {
        let new_total = (pool.total_staked_amount + amount) as u64;
        let new_staked = (info.staked_amount + amount) as u64;
        let new_pool = StakingPool { total_staked_amount: new_total, ..pool };
        if is_dormant(info) {
            Ok((new_pool, StakerInfo {
                key: staker,
                staked_amount: new_staked,
                earned_amount: 0,
                last_stake_timestamp: now,
                staking_pool: pool.owner,
            }))
        } else {
            match spec_accrue(now, new_total, new_staked, info.last_stake_timestamp) {
                Err(e) => Err(e),
                Ok(delta) => if info.earned_amount + delta > u64::MAX {
                    Err(ErrorCode::ArithmeticOverflow)
                } else {
                    Ok((new_pool, StakerInfo {
                        staked_amount: new_staked,
                        earned_amount: (info.earned_amount + delta) as u64,
                        last_stake_timestamp: now,
                        ..info
                    }))
                },
            }
        }
    }
}

/// Deposit `amount` of principal into the position at time `now`. The
/// matching asset movement (staker to pool custody) is the caller's transfer
/// collaborator's job and must complete before the new records are committed.
///
/// On any error both records are left exactly as they were. On success the
/// pool's aggregate and the position's principal grow by the same amount,
/// which keeps the pool-wide sum of principal intact.
pub fn stake(
    pool: &mut StakingPool,
    info: &mut StakerInfo,
    staker: Identity,
    amount: u64,
    now: u64,
) -> (r: Result<(), ErrorCode>)
    ensures
        (match spec_stake(*old(pool), *old(info), staker, amount, now) {
            Ok(next) => r is Ok && *final(pool) == next.0 && *final(info) == next.1,
            Err(e) => r is Err && r->Err_0 == e && *final(pool) == *old(pool) && *final(info)
                == *old(info),
        }),
        r is Err ==> *final(pool) == *old(pool) && *final(info) == *old(info),
        final(pool).total_staked_amount - old(pool).total_staked_amount == final(info).staked_amount
            - old(info).staked_amount,
        final(pool).total_reward_amount == old(pool).total_reward_amount,
{
    if amount == 0 {
        return Err(ErrorCode::ZeroStake);
    }
    if amount > u64::MAX - pool.total_staked_amount {
        return Err(ErrorCode::ArithmeticOverflow);
    }
    if amount > u64::MAX - info.staked_amount {
        return Err(ErrorCode::ArithmeticOverflow);
    }
    let new_total: u64 = pool.total_staked_amount + amount;
    let new_staked: u64 = info.staked_amount + amount;
    if info.last_stake_timestamp == 0 {
        // First-ever stake, or reactivation of a dormant slot: nothing has
        // accrued, so bind the position and start a fresh checkpoint.
        pool.total_staked_amount = new_total;
        info.key = staker;
        info.staking_pool = pool.owner;
        info.staked_amount = new_staked;
        info.earned_amount = 0;
        info.last_stake_timestamp = now;
        return Ok(());
    }
    let delta: u64 = match accrue(now, new_total, new_staked, info.last_stake_timestamp) {
        Ok(d) => d,
        Err(e) => {
            return Err(e);
        },
    };
    if delta > u64::MAX - info.earned_amount {
        return Err(ErrorCode::ArithmeticOverflow);
    }
    pool.total_staked_amount = new_total;
    info.staked_amount = new_staked;
    info.earned_amount = info.earned_amount + delta;
    info.last_stake_timestamp = now;
    Ok(())
}

/// The pool, position and payout an unstake call leaves behind. The pending
/// reward is settled first; the payout is the withdrawn principal plus the
/// settled reward; both counters shrink by checked subtraction, so a reserve
/// too small for the settled reward refuses the call rather than wrapping.
/// A full withdrawal returns the slot to its dormant state.
pub open spec fn spec_unstake(
    pool: StakingPool,
    info: StakerInfo,
    amount: u64,
    now: u64,
) -> Result<(StakingPool, StakerInfo, u64), ErrorCode> {
    if info.staked_amount == 0 {
        Err(ErrorCode::NoStake)
    } else if amount > info.staked_amount {
        Err(ErrorCode::InsufficientStake)
    } else {
        match spec_accrue(now, pool.total_staked_amount, info.staked_amount, info.last_stake_timestamp) {
            Err(e) => Err(e),
            Ok(delta) => if info.earned_amount + delta > u64::MAX {
                Err(ErrorCode::ArithmeticOverflow)
            } else {
                let settled = (info.earned_amount + delta) as u64;
                if amount + settled > u64::MAX {
                    Err(ErrorCode::ArithmeticOverflow)
                } else if pool.total_staked_amount < amount {
                    Err(ErrorCode::ArithmeticUnderflow)
                } else if pool.total_reward_amount < settled {
                    Err(ErrorCode::ArithmeticUnderflow)
                } else {
                    Ok((
                        StakingPool {
                            total_staked_amount: (pool.total_staked_amount - amount) as u64,
                            total_reward_amount: (pool.total_reward_amount - settled) as u64,
                            ..pool
                        },
                        StakerInfo {
                            staked_amount: (info.staked_amount - amount) as u64,
                            earned_amount: 0,
                            last_stake_timestamp: if amount == info.staked_amount {
                                0
                            } else {
                                now
                            },
                            ..info
                        },
                        (amount + settled) as u64,
                    ))
                }
            },
        }
    }
}

/// Withdraw `amount` of principal at time `now`, paying out the withdrawn
/// principal together with every reward settled so far. The returned payout
/// must be moved from pool custody to the staker by the caller's transfer
/// collaborator before the new records are committed.
///
/// On any error both records are left exactly as they were. A full
/// withdrawal (`amount` equal to the outstanding principal) resets the slot
/// to dormant: checkpoint, principal and pending reward all return to zero.
pub fn unstake(
    pool: &mut StakingPool,
    info: &mut StakerInfo,
    amount: u64,
    now: u64,
) -> (r: Result<u64, ErrorCode>)
    ensures
        (match spec_unstake(*old(pool), *old(info), amount, now) {
            Ok(next) => r is Ok && r->Ok_0 == next.2 && *final(pool) == next.0 && *final(info)
                == next.1,
            Err(e) => r is Err && r->Err_0 == e && *final(pool) == *old(pool) && *final(info)
                == *old(info),
        }),
        r is Err ==> *final(pool) == *old(pool) && *final(info) == *old(info),
        final(pool).total_staked_amount - old(pool).total_staked_amount == final(info).staked_amount
            - old(info).staked_amount,
        r is Ok && amount == old(info).staked_amount ==> final(info).last_stake_timestamp == 0
            && final(info).earned_amount == 0 && final(info).staked_amount == 0,
        r is Ok ==> final(info).earned_amount == 0,
{
    if info.staked_amount == 0 {
        return Err(ErrorCode::NoStake);
    }
    if amount > info.staked_amount {
        return Err(ErrorCode::InsufficientStake);
    }
    let delta: u64 = match accrue(
        now,
        pool.total_staked_amount,
        info.staked_amount,
        info.last_stake_timestamp,
    ) {
        Ok(d) => d,
        Err(e) => {
            return Err(e);
        },
    };
    if delta > u64::MAX - info.earned_amount {
        return Err(ErrorCode::ArithmeticOverflow);
    }
    let settled: u64 = info.earned_amount + delta;
    if settled > u64::MAX - amount {
        return Err(ErrorCode::ArithmeticOverflow);
    }
    let payout: u64 = amount + settled;
    if pool.total_staked_amount < amount {
        return Err(ErrorCode::ArithmeticUnderflow);
    }
    if pool.total_reward_amount < settled {
        return Err(ErrorCode::ArithmeticUnderflow);
    }
    pool.total_staked_amount = pool.total_staked_amount - amount;
    pool.total_reward_amount = pool.total_reward_amount - settled;
    if info.staked_amount == amount {
        info.last_stake_timestamp = 0;
    } else {
        info.last_stake_timestamp = now;
    }
    info.staked_amount = info.staked_amount - amount;
    info.earned_amount = 0;
    Ok(payout)
}

/// The pool, position and payout a claim call leaves behind. Principal is
/// untouched: the pending reward is settled, paid out of the reserve by
/// checked subtraction, and the checkpoint moves to `now`.
pub open spec fn spec_claim(
    pool: StakingPool,
    info: StakerInfo,
    now: u64,
) -> Result<(StakingPool, StakerInfo, u64), ErrorCode> {
    if is_dormant(info) {
        Err(ErrorCode::NoStake)
    } else {
        match spec_accrue(now, pool.total_staked_amount, info.staked_amount, info.last_stake_timestamp) {
            Err(e) => Err(e),
            Ok(delta) => if info.earned_amount + delta > u64::MAX {
                Err(ErrorCode::ArithmeticOverflow)
            } else {
                let settled = (info.earned_amount + delta) as u64;
                if pool.total_reward_amount < settled {
                    Err(ErrorCode::ArithmeticUnderflow)
                } else {
                    Ok((
                        StakingPool {
                            total_reward_amount: (pool.total_reward_amount - settled) as u64,
                            ..pool
                        },
                        StakerInfo { earned_amount: 0, last_stake_timestamp: now, ..info },
                        settled,
                    ))
                }
            },
        }
    }
}

/// Settle and pay out the position's pending reward at time `now`, leaving
/// its principal in the pool. The returned payout must be moved from pool
/// custody to the staker by the caller's transfer collaborator before the
/// new records are committed.
///
/// On any error both records are left exactly as they were, and in every
/// case — success or failure — the position's principal and the pool's
/// stake aggregate are untouched.
pub fn claim(pool: &mut StakingPool, info: &mut StakerInfo, now: u64) -> (r: Result<
    u64,
    ErrorCode,
>)
    ensures
        (match spec_claim(*old(pool), *old(info), now) {
            Ok(next) => r is Ok && r->Ok_0 == next.2 && *final(pool) == next.0 && *final(info)
                == next.1,
            Err(e) => r is Err && r->Err_0 == e && *final(pool) == *old(pool) && *final(info)
                == *old(info),
        }),
        r is Err ==> *final(pool) == *old(pool) && *final(info) == *old(info),
        final(info).staked_amount == old(info).staked_amount,
        final(pool).total_staked_amount == old(pool).total_staked_amount,
        r is Ok ==> final(pool).total_reward_amount == old(pool).total_reward_amount - r->Ok_0,
{
    if info.last_stake_timestamp == 0 {
        return Err(ErrorCode::NoStake);
    }
    let delta: u64 = match accrue(
        now,
        pool.total_staked_amount,
        info.staked_amount,
        info.last_stake_timestamp,
    ) {
        Ok(d) => d,
        Err(e) => {
            return Err(e);
        },
    };
    if delta > u64::MAX - info.earned_amount {
        return Err(ErrorCode::ArithmeticOverflow);
    }
    let settled: u64 = info.earned_amount + delta;
    if pool.total_reward_amount < settled {
        return Err(ErrorCode::ArithmeticUnderflow);
    }
    pool.total_reward_amount = pool.total_reward_amount - settled;
    info.earned_amount = 0;
    info.last_stake_timestamp = now;
    Ok(settled)
}

} // verus!
