use vstd::prelude::*;

verus! {

/// Why an operation was refused. A refused operation leaves every record it
/// was given unchanged.
#[derive(Debug, Clone, Copy, PartialEq, Eq, Structural)]
pub enum ContractError {
    /// A market was requested with no initial liquidity.
    Unauthorized,
    /// Only the creator of a market may resolve it.
    NotCreator,
    /// The market is resolved: its pools are frozen.
    MarketResolved,
    /// The market was resolved before.
    AlreadyResolved,
    /// A liquidity amount of zero.
    ZeroAmount,
    /// An outcome other than `"YES"` or `"NO"`.
    InvalidOutcome,
    /// The caller has no liquidity recorded in the market.
    ProviderNotFound,
    /// The caller holds no shares in the market.
    BuyerNotFound,
    /// The caller asked to withdraw more than it contributed.
    InsufficientLiquidity,
    /// The caller asked to sell more shares than it holds.
    InsufficientShares,
    /// A quantity would leave the range of `u128`.
    Overflow,
    /// A quantity would be divided by zero.
    DivideByZero,
}

} // verus!
