use vstd::prelude::*;

use crate::error::ErrorCode;

verus! {

/// The reward earned by a position over the interval since its checkpoint:
/// the position's share of pool-wide elapsed time, truncated toward zero.
///
/// The rate is derived at settlement time from the pool's current aggregate
/// stake, not integrated over the interval: a deliberate simplification that
/// the operations preserve. Meaningful when `now >= last_checkpoint` and
/// `total_staked > 0`; the executable engine refuses every other input.
pub open spec fn spec_accrued(now: u64, last_checkpoint: u64, total_staked: u64, staked_amount: u64) -> int {
    ((now - last_checkpoint) * staked_amount) / (total_staked as int)
}

/// Exact outcome of one accrual computation, error selection included:
/// a backwards clock is an underflow, an empty pool a division by zero,
/// and a reward that does not fit in 64 bits an overflow.
pub open spec fn spec_accrue(now: u64, total_staked: u64, staked_amount: u64, last_checkpoint: u64) -> Result<u64, ErrorCode> {
    if now < last_checkpoint {
        Err(ErrorCode::ArithmeticUnderflow)
    } else if total_staked == 0 {
        Err(ErrorCode::DivisionByZero)
    } else if spec_accrued(now, last_checkpoint, total_staked, staked_amount) > u64::MAX {
        Err(ErrorCode::ArithmeticOverflow)
    } else {
        Ok(spec_accrued(now, last_checkpoint, total_staked, staked_amount) as u64)
    }
}

/// The accrual engine: computes the reward earned by a position holding
/// `staked_amount` since `last_checkpoint`, given the pool's aggregate stake.
///
/// The quotient is computed exactly over 128-bit intermediates, so the only
/// truncation is the documented rounding toward zero of the final division.
pub fn accrue(now: u64, total_staked: u64, staked_amount: u64, last_checkpoint: u64) -> (r: Result<u64, ErrorCode>)
    ensures
        r == spec_accrue(now, total_staked, staked_amount, last_checkpoint),
        r is Ok ==> now >= last_checkpoint && total_staked > 0,
        r is Ok ==> r->Ok_0 == spec_accrued(now, last_checkpoint, total_staked, staked_amount),
{
    if now < last_checkpoint {
        return Err(ErrorCode::ArithmeticUnderflow);
    }
    if total_staked == 0 {
        return Err(ErrorCode::DivisionByZero);
    }
    let elapsed: u64 = now - last_checkpoint;
    proof {
        assert((elapsed as int) * (staked_amount as int) <= (u64::MAX as int) * (u64::MAX as int))
            by (nonlinear_arith)
            requires
                elapsed <= u64::MAX,
                staked_amount <= u64::MAX,
        ;
    }
    let product: u128 = (elapsed as u128) * (staked_amount as u128);
    let quotient: u128 = product / (total_staked as u128);
    if quotient > u64::MAX as u128 {
        return Err(ErrorCode::ArithmeticOverflow);
    }
    Ok(quotient as u64)
}

} // verus!
