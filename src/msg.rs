use vstd::prelude::*;

use crate::state::Outcome;

verus! {

/// Message that sets the contract up.
#[derive(Debug, Clone, PartialEq, Eq, Structural)]
pub struct InstantiateMsg {}

/// The requests that change the markets.
#[derive(Debug, Clone)]
pub enum ExecuteMsg {
    CreateMarket { description: String, initial_liquidity: u128 },
    AddLiquidity { market_id: u64, amount: u128 },
    RemoveLiquidity { market_id: u64, amount: u128 },
    BuyShares { market_id: u64, outcome: String, amount: u128 },
    SellShares { market_id: u64, outcome: String, amount: u128 },
    ResolveMarket { market_id: u64, winning_outcome: String },
}

/// The read requests.
#[derive(Debug, Clone, PartialEq, Eq, Structural)]
pub enum QueryMsg {
    GetCount {},
}

/// Answer to `QueryMsg::GetCount`.
#[derive(Debug, Clone, PartialEq, Eq, Structural)]
pub struct GetCountResponse {
    pub count: i32,
}

/// Result of creating a market.
#[derive(Debug, Clone)]
pub struct MarketCreated {
    pub market_id: u64,
    pub market: crate::state::Market,
}

/// Result of a deposit of liquidity.
#[derive(Debug, Clone, PartialEq, Eq, Structural)]
pub struct LiquidityAdded {
    pub liquidity_added: u128,
    /// Whether the pools were unequal, so that the provider was credited
    /// outcome shares.
    pub rebalanced: bool,
    pub shares_yes_to_provider: u128,
    pub shares_no_to_provider: u128,
}

/// Result of a withdrawal of liquidity.
#[derive(Debug, Clone, PartialEq, Eq, Structural)]
pub struct LiquidityRemoved {
    pub liquidity_removed: u128,
    pub shares_yes_withdrawn: u128,
    pub shares_no_withdrawn: u128,
    pub price_yes: u128,
    pub price_no: u128,
}

/// Result of a purchase of outcome shares.
#[derive(Debug, Clone, PartialEq, Eq, Structural)]
pub struct SharesBought {
    pub outcome: Outcome,
    pub shares_bought: u128,
    pub price_yes: u128,
    pub price_no: u128,
}

/// Result of a sale of outcome shares.
#[derive(Debug, Clone, PartialEq, Eq, Structural)]
pub struct SharesSold {
    pub outcome: Outcome,
    pub shares_sold: u128,
    pub usdc_received: u128,
    pub price_yes: u128,
    pub price_no: u128,
}

/// Result of resolving a market: what each holder is owed, in the order of
/// the records handed in.
#[derive(Debug, Clone)]
pub struct Resolution {
    pub winning_outcome: Outcome,
    pub buyer_payouts: Vec<u128>,
    pub provider_payouts: Vec<u128>,
}

} // verus!
