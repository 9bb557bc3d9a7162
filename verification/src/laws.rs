use vstd::prelude::*;

use crate::accrual::spec_accrue;
use crate::error::ErrorCode;
use crate::ops::spec_claim;
use crate::ops::spec_fund;
use crate::ops::spec_stake;
use crate::ops::spec_unstake;
use crate::state::Identity;
use crate::state::StakerInfo;
use crate::state::StakingPool;

verus! {

/// Law: funding is cumulative. Two fund calls of `a` then `b` leave the same
/// ledger as one fund call of `a + b`, whenever the combined amount fits the
/// reserve's 64-bit range.
pub proof fn lemma_fund_twice(pool: StakingPool, a: u64, b: u64)
    requires
        a + b <= u64::MAX,
        pool.total_reward_amount + a + b <= u64::MAX,
    ensures
        spec_fund(pool, a) is Ok,
        (match spec_fund(pool, a) {
            Ok(once) => spec_fund(once, b) == spec_fund(pool, (a + b) as u64),
            Err(_) => true,
        }),
{
}

/// Sum of outstanding principal over a pool's positions.
pub open spec fn sum_staked(positions: Seq<StakerInfo>) -> int
    decreases positions.len(),
{
    if positions.len() == 0 {
        0
    } else {
        positions[0].staked_amount + sum_staked(positions.drop_first())
    }
}

/// Replacing one position changes the sum by exactly the change in that
/// position's principal.
pub proof fn lemma_sum_staked_update(positions: Seq<StakerInfo>, i: int, x: StakerInfo)
    requires
        0 <= i < positions.len(),
    ensures
        sum_staked(positions.update(i, x)) == sum_staked(positions) - positions[i].staked_amount
            + x.staked_amount,
    decreases positions.len(),
{
    if i == 0 {
        assert(positions.update(0, x).drop_first() =~= positions.drop_first());
    } else {
        lemma_sum_staked_update(positions.drop_first(), i - 1, x);
        assert(positions.update(i, x).drop_first() =~= positions.drop_first().update(i - 1, x));
    }
}

/// Law: stake keeps the pool's aggregate equal to the sum of principal over
/// all its positions. Position `i` is the one staked into; every other
/// position is untouched by the call.
pub proof fn lemma_stake_preserves_stake_sum(
    pool: StakingPool,
    positions: Seq<StakerInfo>,
    i: int,
    staker: Identity,
    amount: u64,
    now: u64,
)
    requires
        0 <= i < positions.len(),
        pool.total_staked_amount == sum_staked(positions),
    ensures
        (match spec_stake(pool, positions[i], staker, amount, now) {
            Ok(next) => next.0.total_staked_amount == sum_staked(positions.update(i, next.1)),
            Err(_) => true,
        }),
{
    if spec_stake(pool, positions[i], staker, amount, now) is Ok {
        let next = spec_stake(pool, positions[i], staker, amount, now)->Ok_0;
        lemma_sum_staked_update(positions, i, next.1);
    }
}

/// Law: unstake keeps the pool's aggregate equal to the sum of principal
/// over all its positions. Position `i` is the one withdrawn from; every
/// other position is untouched by the call.
pub proof fn lemma_unstake_preserves_stake_sum(
    pool: StakingPool,
    positions: Seq<StakerInfo>,
    i: int,
    amount: u64,
    now: u64,
)
    requires
        0 <= i < positions.len(),
        pool.total_staked_amount == sum_staked(positions),
    ensures
        (match spec_unstake(pool, positions[i], amount, now) {
            Ok(next) => next.0.total_staked_amount == sum_staked(positions.update(i, next.1)),
            Err(_) => true,
        }),
{
    if spec_unstake(pool, positions[i], amount, now) is Ok {
        let next = spec_unstake(pool, positions[i], amount, now)->Ok_0;
        lemma_sum_staked_update(positions, i, next.1);
    }
}

/// Law: claim keeps the pool's aggregate equal to the sum of principal over
/// all its positions — it moves no principal at all. Position `i` is the one
/// claimed from; every other position is untouched by the call.
pub proof fn lemma_claim_preserves_stake_sum(
    pool: StakingPool,
    positions: Seq<StakerInfo>,
    i: int,
    now: u64,
)
    requires
        0 <= i < positions.len(),
        pool.total_staked_amount == sum_staked(positions),
    ensures
        (match spec_claim(pool, positions[i], now) {
            Ok(next) => next.0.total_staked_amount == sum_staked(positions.update(i, next.1)),
            Err(_) => true,
        }),
{
    if spec_claim(pool, positions[i], now) is Ok {
        let next = spec_claim(pool, positions[i], now)->Ok_0;
        lemma_sum_staked_update(positions, i, next.1);
    }
}

/// One settlement call aimed at one position, as the law over operation
/// sequences speaks of it.
pub enum PoolOp {
    Stake { staker: Identity, amount: u64, now: u64 },
    Unstake { amount: u64, now: u64 },
    Claim { now: u64 },
}

/// The records one call leaves behind: the successor records on success, the
/// very same records when the call is refused (every operation is atomic).
pub open spec fn apply_op(pool: StakingPool, info: StakerInfo, op: PoolOp) -> (
    StakingPool,
    StakerInfo,
) {
    match op {
        PoolOp::Stake { staker, amount, now } => match spec_stake(pool, info, staker, amount, now) {
            Ok(next) => next,
            Err(_) => (pool, info),
        },
        PoolOp::Unstake { amount, now } => match spec_unstake(pool, info, amount, now) {
            Ok(next) => (next.0, next.1),
            Err(_) => (pool, info),
        },
        PoolOp::Claim { now } => match spec_claim(pool, info, now) {
            Ok(next) => (next.0, next.1),
            Err(_) => (pool, info),
        },
    }
}

/// Run a sequence of calls against the pool, each aimed at the position with
/// the given index; a step aimed outside the pool's positions does nothing.
pub open spec fn run_ops(
    pool: StakingPool,
    positions: Seq<StakerInfo>,
    ops: Seq<(int, PoolOp)>,
) -> (StakingPool, Seq<StakerInfo>)
    decreases ops.len(),
{
    if ops.len() == 0 {
        (pool, positions)
    } else {
        let step = ops[0];
        if 0 <= step.0 < positions.len() {
            let next = apply_op(pool, positions[step.0], step.1);
            run_ops(next.0, positions.update(step.0, next.1), ops.drop_first())
        } else {
            run_ops(pool, positions, ops.drop_first())
        }
    }
}

/// Law: over every sequence of stake, unstake and claim calls — successful
/// or refused — the pool's aggregate stays equal to the sum of outstanding
/// principal across the pool's positions.
pub proof fn lemma_ops_preserve_stake_sum(
    pool: StakingPool,
    positions: Seq<StakerInfo>,
    ops: Seq<(int, PoolOp)>,
)
    requires
        pool.total_staked_amount == sum_staked(positions),
    ensures
        ({
            let end = run_ops(pool, positions, ops);
            end.0.total_staked_amount == sum_staked(end.1)
        }),
    decreases ops.len(),
{
    if ops.len() != 0 {
        let step = ops[0];
        if 0 <= step.0 < positions.len() {
            let next = apply_op(pool, positions[step.0], step.1);
            match step.1 {
                PoolOp::Stake { staker, amount, now } => {
                    lemma_stake_preserves_stake_sum(pool, positions, step.0, staker, amount, now);
                },
                PoolOp::Unstake { amount, now } => {
                    lemma_unstake_preserves_stake_sum(pool, positions, step.0, amount, now);
                },
                PoolOp::Claim { now } => {
                    lemma_claim_preserves_stake_sum(pool, positions, step.0, now);
                },
            }
            // a refused call leaves both records as they were, so replacing
            // the position with itself keeps the sum as well
            lemma_sum_staked_update(positions, step.0, next.1);
            lemma_ops_preserve_stake_sum(next.0, positions.update(step.0, next.1), ops.drop_first());
        } else {
            lemma_ops_preserve_stake_sum(pool, positions, ops.drop_first());
        }
    }
}

/// The reward a settlement at `now` would fold into the position: what is
/// already pending plus the freshly accrued delta. Meaningful only where the
/// accrual itself succeeds.
pub open spec fn settled_reward(pool: StakingPool, info: StakerInfo, now: u64) -> int {
    info.earned_amount + spec_accrue(
        now,
        pool.total_staked_amount,
        info.staked_amount,
        info.last_stake_timestamp,
    )->Ok_0
}

/// The settlement itself is computable — the position is active, the accrual
/// succeeds and the settled reward fits 64 bits — but the reserve cannot
/// cover it: paying out would drive the reserve negative.
pub open spec fn settlement_overdraws(pool: StakingPool, info: StakerInfo, now: u64) -> bool {
    &&& info.last_stake_timestamp != 0
    &&& spec_accrue(
        now,
        pool.total_staked_amount,
        info.staked_amount,
        info.last_stake_timestamp,
    ) is Ok
    &&& settled_reward(pool, info, now) <= u64::MAX
    &&& settled_reward(pool, info, now) > pool.total_reward_amount
}

/// Law: claim protects the reward reserve. A successful claim pays exactly
/// what it removes from the reserve, which therefore stays non-negative; a
/// settled reward larger than the reserve is refused as an underflow, and
/// the refused call changes nothing (the operation's own contract keeps both
/// records unchanged on every error).
pub proof fn lemma_claim_reserve_protected(pool: StakingPool, info: StakerInfo, now: u64)
    ensures
        (match spec_claim(pool, info, now) {
            Ok(next) => next.2 <= pool.total_reward_amount && next.0.total_reward_amount
                == pool.total_reward_amount - next.2,
            Err(_) => true,
        }),
        settlement_overdraws(pool, info, now) ==> spec_claim(pool, info, now) == Result::<
            (StakingPool, StakerInfo, u64),
            ErrorCode,
        >::Err(ErrorCode::ArithmeticUnderflow),
{
}

/// Law: unstake protects the reward reserve in the same way. The reserve
/// shrinks by exactly the settled reward — never more — and a settled reward
/// larger than the reserve is refused as an underflow whenever the rest of
/// the withdrawal is sound (principal available, payout within range).
pub proof fn lemma_unstake_reserve_protected(
    pool: StakingPool,
    info: StakerInfo,
    amount: u64,
    now: u64,
)
    ensures
        (match spec_unstake(pool, info, amount, now) {
            Ok(next) => next.2 - amount <= pool.total_reward_amount && next.0.total_reward_amount
                == pool.total_reward_amount - (next.2 - amount),
            Err(_) => true,
        }),
        settlement_overdraws(pool, info, now) && info.staked_amount != 0 && amount
            <= info.staked_amount && amount <= pool.total_staked_amount && amount + settled_reward(
            pool,
            info,
            now,
        ) <= u64::MAX ==> spec_unstake(pool, info, amount, now) == Result::<
            (StakingPool, StakerInfo, u64),
            ErrorCode,
        >::Err(ErrorCode::ArithmeticUnderflow),
{
}

} // verus!
