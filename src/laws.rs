use vstd::prelude::*;

use crate::contract::{
    add_liquidity_error, deposit_effect, remove_liquidity_error, resolve_market_error, withdrawal,
};
use crate::error::ContractError;
use crate::pricing::{fits, DECIMAL_PRECISION};
use crate::state::{outcome_of, Buyer, LiquidityProvider, Market};

verus! {

/// Resolution is final: once a market is resolved, every further request to
/// resolve it, from anyone and with any outcome, is refused.
pub proof fn resolution_is_final(
    market: Market,
    sender: Seq<char>,
    winning_outcome: Seq<char>,
    later_sender: Seq<char>,
    later_outcome: Seq<char>,
)
    requires
        resolve_market_error(market, sender, winning_outcome) is None,
    ensures
        resolve_market_error(
            market.resolved_as(outcome_of(winning_outcome)->Some_0),
            later_sender,
            later_outcome,
        ) == Some(ContractError::AlreadyResolved),
{
}

/// A deposit followed by the withdrawal of the same amount, by the same
/// provider, restores the pools, the total liquidity and the provider's
/// contribution, for a market untouched by trades: one whose pools both equal
/// its total liquidity, as `create_market` leaves it and balanced deposits
/// and withdrawals keep it. The withdrawal is refused only where `amount`
/// times the grown pools leaves the range of `u128`.
pub proof fn deposit_then_withdrawal_restores(
    market: Market,
    provider: LiquidityProvider,
    buyer: Buyer,
    amount: u128,
)
    requires
        market.shares_yes == market.total_liquidity,
        market.shares_no == market.total_liquidity,
        add_liquidity_error(
            market,
            provider.contributed_liquidity as int,
            buyer.shares_yes as int,
            buyer.shares_no as int,
            amount as int,
        ) is None,
    ensures
        ({
            let e = deposit_effect(market, amount as int);
            let grown = market.with_pools(e.0, e.1, market.total_liquidity + amount);
            let contributed = provider.contributed_liquidity + amount;
            let w = withdrawal(grown, amount as int);
            &&& (remove_liquidity_error(grown, contributed, amount as int) is None <==> fits(
                amount * grown.total_liquidity,
            ))
            &&& grown.shares_yes - w.0 == market.shares_yes
            &&& grown.shares_no - w.1 == market.shares_no
            &&& grown.total_liquidity - amount == market.total_liquidity
            &&& contributed - amount == provider.contributed_liquidity
        }),
{
    let t = market.total_liquidity as int;
    let a = amount as int;
    let g = t + a;
    let e = deposit_effect(market, a);
    assert(e.0 == g && e.1 == g);
    let grown = market.with_pools(e.0, e.1, market.total_liquidity + amount);
    assert(grown.shares_yes == g && grown.shares_no == g && grown.total_liquidity == g);
    vstd::arithmetic::div_mod::lemma_div_by_multiple(a, g);
    let w = withdrawal(grown, a);
    assert(w.0 == a && w.1 == a);
    assert(t * DECIMAL_PRECISION <= g * DECIMAL_PRECISION);
}

} // verus!
