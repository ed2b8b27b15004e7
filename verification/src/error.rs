//! Error taxonomy of the library.
//!
//! Every operation is all-or-nothing: a function that returns one of these
//! errors leaves every `&mut` argument unchanged, and each failure is
//! distinguishable by its variant.

use vstd::prelude::*;

verus! {

/// Reasons an operation can be rejected.
#[derive(Debug, Clone, Copy, PartialEq, Eq, Structural)]
pub enum ErrorCode {
    /// A market or conditional mint does not belong to the proposal supplied.
    InvalidMarket,
    /// Finalize was attempted before the proposal's trading window elapsed.
    ProposalTooYoung,
    /// Conditional tokens cannot be redeemed while the proposal is unresolved.
    ProposalStillPending,
    /// The proposal has already been finalized.
    ProposalAlreadyFinalized,
    /// The proposal has already left its `Initialize` state.
    ProposalAlreadySubmitted,
    /// A market side was created twice for the same proposal.
    MarketAlreadyCreated,
    /// The proposal was submitted before both market sides were created.
    MarketsNotCreated,
    /// The instruction list is frozen and can no longer be extended.
    ProposalInstructionsFrozen,
    /// The caller's underlying token balance is too small.
    InsufficientUnderlyingTokens,
    /// The caller's conditional token balance is too small.
    InsufficientConditionalTokens,
    /// The proposer may not pull liquidity while the market is pending.
    ProposerCannotPullLiquidityWhileMarketIsPending,
    /// Neither ratio direction of an add-liquidity request fits the caps.
    AddLiquidityCalculationError,
    /// A decimal count outside the supported range was supplied.
    DecimalScaleError,
    /// The constant-product invariant would decrease across a swap.
    SwapInvariantError,
    /// A swap produced less output than the caller's stated minimum.
    SwapSlippageExceeded,
    /// The swap fee is outside the accepted basis-point range.
    SwapFeeOutOfBounds,
    /// A pool needs two distinct mints.
    InvalidMintPair,
    /// The basis points to remove are outside `(0, 10000]`.
    RemoveLiquidityBpsOutOfRange,
    /// A position with zero ownership cannot remove liquidity.
    RemoveLiquidityZeroOwnership,
    /// A permissioned pool was invoked by a caller other than its authority.
    UnauthorizedCaller,
    /// An intermediate value cannot be represented (overflow or a division
    /// by zero); the operation is aborted with no partial effect.
    ArithmeticError,
    /// The supplied slot is earlier than the oracle's last update.
    ClockRolledBack,
}

} // verus!
