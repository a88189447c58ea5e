//! Error taxonomy of the accounting engine. Every engine function returns
//! either a fully computed update or one of these errors; no state container
//! is mutated on any error path.

use vstd::prelude::*;

verus! {

#[derive(Clone, Copy, Debug, PartialEq, Eq, Structural)]
pub enum ErrorCode {
    /// A kernel operation exceeded the representable range upward.
    ArithmeticOverflow,
    /// A kernel operation exceeded the representable range downward.
    ArithmeticUnderflow,
    /// A resulting liquidity value would exceed the liquidity type's
    /// maximum.
    LiquidityOverflow,
    /// A resulting liquidity value would be negative.
    LiquidityUnderflow,
    /// A pure fee/reward sync was requested for a position holding no
    /// liquidity.
    LiquidityZero,
    /// A supplied timestamp lies behind the pool's last reward update.
    InvalidTimestamp,
    /// An initial square-root price lies outside the admissible range.
    SqrtPriceOutOfBounds,
    /// A position boundary is out of the representable tick range,
    /// misaligned to the pool's tick spacing, or not below its partner.
    InvalidTickIndex,
    /// A tick index is not aligned to the pool's tick spacing.
    TickNotAlignedWithSpacing,
    /// A one-time initializer was invoked on an already-initialized slot.
    AlreadyInitialized,
    /// A fee rate above the configured maximum was supplied.
    FeeRateMaxExceeded,
    /// A protocol fee rate above the configured maximum was supplied.
    ProtocolFeeRateMaxExceeded,
    /// A reward slot index at or beyond `NUM_REWARDS` was supplied.
    InvalidRewardIndex,
    /// An emissions update would promise more than the reward vault holds
    /// for one day.
    RewardVaultAmountInsufficient,
}

} // verus!
