use vstd::prelude::*;

verus! {

/// The failures that the pool's state transitions can report.
#[derive(Debug, Clone, Copy, PartialEq, Eq, Structural)]
pub enum ErrorCode {
    InvalidTimestamp,
    SqrtPriceOutOfBounds,
    InvalidTickIndex,
    InvalidTickSpacing,
    FeeRateMaxExceeded,
    ProtocolFeeRateMaxExceeded,
    InvalidRewardIndex,
    RewardVaultAmountInsufficient,
    DivideByZero,
    MulDivOverflow,
    MultiplicationShiftRightOverflow,
    LiquidityOverflow,
    LiquidityUnderflow,
    LiquidityNetError,
    InvalidTickArraySequence,
    InvalidStartTick,
    TickNotFound,
    InvalidTimestampConversion,
}

} // verus!
