//! Accounting core of a binary-outcome prediction market: two outcome pools
//! priced by an automated market maker, liquidity-provider bookkeeping and
//! resolution payouts. Every operation is a state transition over records
//! that the caller loads from and stores to its own persistence layer.

pub mod contract;
pub mod error;
pub mod laws;
pub mod msg;
pub mod pricing;
pub mod state;

pub use contract::{
    add_liquidity, buy_shares, count, create_market, remove_liquidity, resolve_market,
    sell_shares,
};
pub use error::ContractError;
pub use msg::{
    ExecuteMsg, GetCountResponse, InstantiateMsg, LiquidityAdded, LiquidityRemoved,
    MarketCreated, QueryMsg, Resolution, SharesBought, SharesSold,
};
pub use pricing::{calculate_price, DECIMAL_PRECISION};
pub use state::{parse_outcome, Buyer, LiquidityProvider, Market, Outcome, State};
