use vstd::prelude::*;

verus! {

/// Everything that can go wrong in a staking operation.
///
/// Precondition violations (`NotStaked`, `PoolPaused`, and so on) report bad
/// caller input or state; `ArithmeticError` reports an overflow in a checked
/// computation. Either way the operation leaves all records untouched.
#[derive(Clone, Copy, Debug, PartialEq, Eq, Structural)]
pub enum StakingError {
    /// The position is not currently staked.
    NotStaked,
    /// The caller does not own the position.
    NotOwner,
    /// The caller is not the pool administrator.
    NotAdmin,
    /// The pool is paused and accepts no mutating operation.
    PoolPaused,
    /// The staking period has not completed yet.
    StakingPeriodNotCompleted,
    /// The rarity tier is outside the known range.
    InvalidNftTier,
    /// The staking period must be at least one day.
    InvalidStakingPeriod,
    /// The depositor already has the maximum number of staked positions.
    MaxNftsExceeded,
    /// A checked addition or multiplication overflowed.
    ArithmeticError,
    /// The compound frequency code is not one of the known values.
    InvalidCompoundFrequency,
    /// The compound interval for the configured frequency has not elapsed.
    CompoundTooEarly,
    /// The position does not have auto-compounding enabled.
    AutoCompoundNotEnabled,
    /// The milestone index is outside the known range.
    InvalidMilestone,
}

} // verus!
