use vstd::prelude::*;

verus! {

/// An opaque account or participant handle. The runtime that hosts the
/// ledger addresses its durable records by such handles; the accounting
/// rules only store and copy them, never inspect them.
#[derive(Clone, Copy, PartialEq, Eq, Structural, Debug)]
pub struct Identity {
    pub value: u64,
}

/// Aggregate state of one staking pool: one record per owning authority.
///
/// `total_staked_amount` is the sum of `staked_amount` over every position
/// in the pool; `total_reward_amount` is the reserve still available to pay
/// out as rewards, decremented on every settlement.
#[derive(Clone, Copy, PartialEq, Eq, Structural, Debug)]
pub struct StakingPool {
    /// Authority that created the pool.
    pub owner: Identity,
    /// The fungible asset this pool accepts.
    pub staking_token_mint: Identity,
    /// Sum of all outstanding principal across positions.
    pub total_staked_amount: u64,
    /// Funds available to pay out as rewards.
    pub total_reward_amount: u64,
    /// Declared rate parameter; carried in the record but never read by any
    /// operation (the accrual engine derives its rate at settlement time).
    pub reward_per_second: u64,
}

/// One staker's position within a pool: outstanding principal, reward
/// accrued but not yet paid out, and the accrual checkpoint.
///
/// A checkpoint of `0` is the sentinel for a dormant position: no stake is
/// currently open. The record is a durable, reusable slot; a full unstake
/// resets it to the dormant state rather than deleting it.
#[derive(Clone, Copy, PartialEq, Eq, Structural, Debug)]
pub struct StakerInfo {
    /// The staker this position belongs to.
    pub key: Identity,
    /// Current outstanding principal.
    pub staked_amount: u64,
    /// Reward accrued but not yet paid out.
    pub earned_amount: u64,
    /// Seconds timestamp of the last accrual; `0` means dormant.
    pub last_stake_timestamp: u64,
    /// The pool this position belongs to, by its owning authority.
    pub staking_pool: Identity,
}

/// A dormant position has no open stake: rewards neither accrue to it nor
/// are owed by it until the next stake call reactivates it.
pub open spec fn is_dormant(info: StakerInfo) -> bool {
    info.last_stake_timestamp == 0
}

} // verus!
