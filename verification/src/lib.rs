//! Accrual and settlement accounting for a shared staking pool.
//!
//! Stakers deposit a fungible asset into a pool, accrue time-proportional
//! rewards drawn from a funded reward reserve, and later withdraw principal
//! and rewards. This crate holds the accounting core: the pool and position
//! records, the accrual engine that computes the reward earned since a
//! position's last checkpoint, and the four operations (fund, stake, unstake,
//! claim) that settle rewards against the shared reserve.
//!
//! Asset custody, caller authorization, record storage and the clock are
//! runtime collaborators: callers hand the operations plain values and apply
//! the resulting state and payouts themselves.

pub mod accrual;
pub mod error;
pub mod laws;
pub mod ops;
pub mod state;

pub use accrual::accrue;
pub use error::ErrorCode;
pub use ops::claim;
pub use ops::fund;
pub use ops::initialize;
pub use ops::stake;
pub use ops::unstake;
pub use state::Identity;
pub use state::StakerInfo;
pub use state::StakingPool;
