use vstd::prelude::*;

verus! {

/// Why an operation was refused. Every failure is terminal for the call and
/// leaves both records exactly as they were; the caller decides whether to
/// resubmit.
#[derive(Clone, Copy, PartialEq, Eq, Structural, Debug)]
pub enum ErrorCode {
    /// Unstake asked for more than the position's outstanding principal.
    InsufficientStake,
    /// Stake was called with a zero amount.
    ZeroStake,
    /// Unstake or claim was called on a dormant or empty position.
    NoStake,
    /// A checked addition would exceed the 64-bit range, or the accrued
    /// reward itself does not fit in 64 bits.
    ArithmeticOverflow,
    /// A checked subtraction would go below zero: the clock ran backwards
    /// past the checkpoint, or a counter lacks the funds being removed.
    ArithmeticUnderflow,
    /// The accrual engine was invoked while the pool held no stake at all.
    DivisionByZero,
}

} // verus!
