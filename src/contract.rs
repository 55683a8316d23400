use vstd::prelude::*;

use crate::error::ContractError;
use crate::msg::{
    GetCountResponse, LiquidityAdded, LiquidityRemoved, MarketCreated, Resolution, SharesBought,
    SharesSold,
};
use crate::pricing::{fits, lemma_prices_sum, pool_prices, price_of, prices_fit, DECIMAL_PRECISION};
use crate::state::{
    outcome_of, parse_outcome, Buyer, LiquidityProvider, Market, Outcome, State,
};

verus! {

/// The id that the next market receives, after `previous_count` markets.
pub open spec fn next_market_id(previous_count: Option<u64>) -> int {
    match previous_count {
        Some(c) => c + 1,
        None => 1,
    }
}

/// Why `create_market` refuses, if it does.
pub open spec fn create_market_error(previous_count: Option<u64>, initial_liquidity: int) -> Option<
    ContractError,
> {
    if initial_liquidity == 0 {
        Some(ContractError::Unauthorized)
    } else if next_market_id(previous_count) > u64::MAX {
        Some(ContractError::Overflow)
    } else if !fits(initial_liquidity * initial_liquidity) {
        Some(ContractError::Overflow)
    } else {
        None
    }
}

/// Opens a market with both pools at `initial_liquidity`, so that both
/// prices start at one half. `previous_count` is the number of markets
/// opened before, if any was.
pub fn create_market(
    previous_count: Option<u64>,
    creator: String,
    description: String,
    initial_liquidity: u128,
) -> (r: Result<MarketCreated, ContractError>)
    ensures
        r is Ok <==> create_market_error(previous_count, initial_liquidity as int) is None,
        r is Err ==> create_market_error(previous_count, initial_liquidity as int) == Some(
            r->Err_0,
        ),
        r is Ok ==> r->Ok_0.market_id == next_market_id(previous_count),
        r is Ok ==> r->Ok_0.market.creator == creator,
        r is Ok ==> r->Ok_0.market.description == description,
        r is Ok ==> r->Ok_0.market.shares_yes == initial_liquidity,
        r is Ok ==> r->Ok_0.market.shares_no == initial_liquidity,
        r is Ok ==> r->Ok_0.market.total_liquidity == initial_liquidity,
        r is Ok ==> r->Ok_0.market.total_liquidity_shares == initial_liquidity
            * initial_liquidity,
        r is Ok ==> !r->Ok_0.market.resolved,
        r is Ok ==> r->Ok_0.market.winning_outcome is None,
        r is Ok ==> r->Ok_0.market.price_yes == DECIMAL_PRECISION / 2,
        r is Ok ==> r->Ok_0.market.price_no == DECIMAL_PRECISION / 2,
        r is Ok ==> r->Ok_0.market.prices_current(),
        r is Ok ==> r->Ok_0.market.prices_balanced(),
        r is Ok ==> r->Ok_0.market.pools_nonempty(),
{
    if initial_liquidity == 0 {
        return Err(ContractError::Unauthorized);
    }
    let market_id = match previous_count {
        Some(c) => match c.checked_add(1) {
            Some(id) => id,
            None => return Err(ContractError::Overflow),
        },
        None => 1,
    };
    let total_liquidity_shares = match initial_liquidity.checked_mul(initial_liquidity) {
        Some(p) => p,
        None => return Err(ContractError::Overflow),
    };
    let half: u128 = DECIMAL_PRECISION / 2;
    proof {
        let l = initial_liquidity as int;
        assert(half == 50_000_000);
        assert(l * DECIMAL_PRECISION == (half as int) * (2 * l)) by (nonlinear_arith)
            requires
                half == 50_000_000,
                DECIMAL_PRECISION == 100_000_000,
        ;
        vstd::arithmetic::div_mod::lemma_div_by_multiple(half as int, 2 * l);
        assert(price_of(l, l) == half);
    }
    let market = Market {
        creator,
        description,
        shares_yes: initial_liquidity,
        shares_no: initial_liquidity,
        total_liquidity: initial_liquidity,
        total_liquidity_shares,
        resolved: false,
        winning_outcome: None,
        price_yes: half,
        price_no: half,
    };
    Ok(MarketCreated { market_id, market })
}

/// Pools after a deposit of `amount` into `market`, and the outcome shares
/// credited to the depositor: (YES pool, NO pool, YES shares, NO shares).
/// Equal pools both grow by `amount`. Otherwise the smaller pool is set so
/// that the ratio of the pools stays that of the stored prices, and what the
/// naive deposit would have added beyond that goes to the depositor.
pub open spec fn deposit_effect(market: Market, amount: int) -> (int, int, int, int) {
    let yes = market.shares_yes as int;
    let no = market.shares_no as int;
    if yes == no {
        (yes + amount, no + amount, 0, 0)
    } else if yes < no {
        let new_yes = (no + amount) * market.price_no / (market.price_yes as int);
        (new_yes, no + amount, yes + amount - new_yes, 0)
    } else {
        let new_no = (yes + amount) * market.price_yes / (market.price_no as int);
        (yes + amount, new_no, 0, no + amount - new_no)
    }
}

/// Whether every quantity of a deposit can be held in a `u128`.
pub open spec fn deposit_fits(
    market: Market,
    contributed: int,
    held_yes: int,
    held_no: int,
    amount: int,
) -> bool {
    let yes = market.shares_yes as int;
    let no = market.shares_no as int;
    let e = deposit_effect(market, amount);
    &&& fits(yes + amount)
    &&& fits(no + amount)
    &&& yes < no ==> fits((no + amount) * market.price_no)
    &&& yes > no ==> fits((yes + amount) * market.price_yes)
    &&& e.2 >= 0
    &&& e.3 >= 0
    &&& fits(held_yes + e.2)
    &&& fits(held_no + e.3)
    &&& fits(market.total_liquidity + amount)
    &&& fits(contributed + amount)
    &&& prices_fit(e.0, e.1)
}

/// Why `add_liquidity` refuses, if it does.
pub open spec fn add_liquidity_error(
    market: Market,
    contributed: int,
    held_yes: int,
    held_no: int,
    amount: int,
) -> Option<ContractError> {
    let yes = market.shares_yes as int;
    let no = market.shares_no as int;
    if market.resolved {
        Some(ContractError::MarketResolved)
    } else if amount == 0 {
        Some(ContractError::ZeroAmount)
    } else if (yes < no && market.price_yes == 0) || (yes > no && market.price_no == 0) {
        Some(ContractError::DivideByZero)
    } else if !deposit_fits(market, contributed, held_yes, held_no, amount) {
        Some(ContractError::Overflow)
    } else {
        None
    }
}

/// Deposits `amount` of liquidity into `market` for the holder of the
/// records `provider` and `buyer` (fresh records where the holder has none).
pub fn add_liquidity(
    market: &mut Market,
    provider: &mut LiquidityProvider,
    buyer: &mut Buyer,
    amount: u128,
) -> (r: Result<LiquidityAdded, ContractError>)
    ensures
        r is Ok <==> add_liquidity_error(
            *old(market),
            old(provider).contributed_liquidity as int,
            old(buyer).shares_yes as int,
            old(buyer).shares_no as int,
            amount as int,
        ) is None,
        r is Err ==> add_liquidity_error(
            *old(market),
            old(provider).contributed_liquidity as int,
            old(buyer).shares_yes as int,
            old(buyer).shares_no as int,
            amount as int,
        ) == Some(r->Err_0),
        r is Err ==> *final(market) == *old(market) && *final(provider) == *old(provider)
            && *final(buyer) == *old(buyer),
        r is Ok ==> *final(market) == old(market).with_pools(
            deposit_effect(*old(market), amount as int).0,
            deposit_effect(*old(market), amount as int).1,
            old(market).total_liquidity + amount,
        ),
        r is Ok ==> final(market).prices_current() && final(market).prices_balanced(),
        r is Ok ==> final(provider).address == old(provider).address
            && final(provider).contributed_liquidity == old(provider).contributed_liquidity
            + amount,
        r is Ok ==> final(buyer).address == old(buyer).address && final(buyer).shares_yes
            == old(buyer).shares_yes + deposit_effect(*old(market), amount as int).2
            && final(buyer).shares_no == old(buyer).shares_no + deposit_effect(
            *old(market),
            amount as int,
        ).3,
        r is Ok && old(market).shares_yes == old(market).shares_no ==> final(market).shares_yes
            == old(market).shares_yes + amount && final(market).shares_no == old(market).shares_no
            + amount && *final(buyer) == *old(buyer),
        r is Ok ==> final(market).pools_nonempty(),
        r is Ok ==> r->Ok_0.liquidity_added == amount,
        r is Ok ==> r->Ok_0.rebalanced == (old(market).shares_yes != old(market).shares_no),
        r is Ok ==> r->Ok_0.shares_yes_to_provider == deposit_effect(*old(market), amount as int).2,
        r is Ok ==> r->Ok_0.shares_no_to_provider == deposit_effect(*old(market), amount as int).3,
{
    if market.resolved {
        return Err(ContractError::MarketResolved);
    }
    if amount == 0 {
        return Err(ContractError::ZeroAmount);
    }
    let yes = market.shares_yes;
    let no = market.shares_no;
    if (yes < no && market.price_yes == 0) || (yes > no && market.price_no == 0) {
        return Err(ContractError::DivideByZero);
    }
    let temp_yes = match yes.checked_add(amount) {
        Some(v) => v,
        None => return Err(ContractError::Overflow),
    };
    let temp_no = match no.checked_add(amount) {
        Some(v) => v,
        None => return Err(ContractError::Overflow),
    };
    let (new_yes, new_no, to_yes, to_no) = if yes < no {
        let scaled = match temp_no.checked_mul(market.price_no) {
            Some(v) => v,
            None => return Err(ContractError::Overflow),
        };
        let new_yes = scaled / market.price_yes;
        let minted = match temp_yes.checked_sub(new_yes) {
            Some(v) => v,
            None => return Err(ContractError::Overflow),
        };
        (new_yes, temp_no, minted, 0u128)
    } else if yes > no {
        let scaled = match temp_yes.checked_mul(market.price_yes) {
            Some(v) => v,
            None => return Err(ContractError::Overflow),
        };
        let new_no = scaled / market.price_no;
        let minted = match temp_no.checked_sub(new_no) {
            Some(v) => v,
            None => return Err(ContractError::Overflow),
        };
        (temp_yes, new_no, 0u128, minted)
    } else {
        (temp_yes, temp_no, 0u128, 0u128)
    };
    let held_yes = match buyer.shares_yes.checked_add(to_yes) {
        Some(v) => v,
        None => return Err(ContractError::Overflow),
    };
    let held_no = match buyer.shares_no.checked_add(to_no) {
        Some(v) => v,
        None => return Err(ContractError::Overflow),
    };
    let total = match market.total_liquidity.checked_add(amount) {
        Some(v) => v,
        None => return Err(ContractError::Overflow),
    };
    let contributed = match provider.contributed_liquidity.checked_add(amount) {
        Some(v) => v,
        None => return Err(ContractError::Overflow),
    };
    let (price_yes, price_no) = pool_prices(new_yes, new_no)?;
    proof {
        if new_yes + new_no > 0 {
            lemma_prices_sum(new_yes as int, new_no as int);
        }
    }
    market.shares_yes = new_yes;
    market.shares_no = new_no;
    market.total_liquidity = total;
    market.price_yes = price_yes;
    market.price_no = price_no;
    provider.contributed_liquidity = contributed;
    buyer.shares_yes = held_yes;
    buyer.shares_no = held_no;
    Ok(
        LiquidityAdded {
            liquidity_added: amount,
            rebalanced: yes != no,
            shares_yes_to_provider: to_yes,
            shares_no_to_provider: to_no,
        },
    )
}

/// A withdrawal of `amount` of liquidity: (YES withdrawn, NO withdrawn).
/// Each pool gives up its part of `amount`, in proportion to its size
/// against the total liquidity, rounded down.
pub open spec fn withdrawal(market: Market, amount: int) -> (int, int) {
    let total = market.total_liquidity as int;
    (amount * market.shares_yes / total, amount * market.shares_no / total)
}

/// Why `remove_liquidity` refuses, if it does.
pub open spec fn remove_liquidity_error(market: Market, contributed: int, amount: int) -> Option<
    ContractError,
> {
    let w = withdrawal(market, amount);
    if market.resolved {
        Some(ContractError::MarketResolved)
    } else if amount == 0 {
        Some(ContractError::ZeroAmount)
    } else if contributed < amount || market.total_liquidity < amount {
        Some(ContractError::InsufficientLiquidity)
    } else if !fits(amount * market.shares_yes) || !fits(amount * market.shares_no) || !prices_fit(
        market.shares_yes - w.0,
        market.shares_no - w.1,
    ) {
        Some(ContractError::Overflow)
    } else {
        None
    }
}

/// Withdraws `amount` of the liquidity that `provider` contributed.
pub fn remove_liquidity(market: &mut Market, provider: &mut LiquidityProvider, amount: u128) -> (r:
    Result<LiquidityRemoved, ContractError>)
    ensures
        r is Ok <==> remove_liquidity_error(
            *old(market),
            old(provider).contributed_liquidity as int,
            amount as int,
        ) is None,
        r is Err ==> remove_liquidity_error(
            *old(market),
            old(provider).contributed_liquidity as int,
            amount as int,
        ) == Some(r->Err_0),
        r is Err ==> *final(market) == *old(market) && *final(provider) == *old(provider),
        old(provider).contributed_liquidity < amount ==> r is Err,
        r is Ok ==> r->Ok_0.liquidity_removed == amount,
        r is Ok ==> r->Ok_0.shares_yes_withdrawn == withdrawal(*old(market), amount as int).0,
        r is Ok ==> r->Ok_0.shares_no_withdrawn == withdrawal(*old(market), amount as int).1,
        r is Ok ==> r->Ok_0.shares_yes_withdrawn <= old(market).shares_yes
            && r->Ok_0.shares_no_withdrawn <= old(market).shares_no,
        r is Ok ==> *final(market) == old(market).with_pools(
            old(market).shares_yes - r->Ok_0.shares_yes_withdrawn,
            old(market).shares_no - r->Ok_0.shares_no_withdrawn,
            old(market).total_liquidity - amount,
        ),
        r is Ok ==> final(market).prices_current() && final(market).prices_balanced(),
        r is Ok && old(market).pools_nonempty() && amount < old(market).total_liquidity
            ==> final(market).pools_nonempty(),
        r is Ok ==> final(provider).address == old(provider).address
            && final(provider).contributed_liquidity == old(provider).contributed_liquidity
            - amount,
        r is Ok ==> r->Ok_0.price_yes == final(market).price_yes,
        r is Ok ==> r->Ok_0.price_no == final(market).price_no,
{
    if market.resolved {
        return Err(ContractError::MarketResolved);
    }
    if amount == 0 {
        return Err(ContractError::ZeroAmount);
    }
    let contributed = provider.contributed_liquidity;
    let total = market.total_liquidity;
    if contributed < amount || total < amount {
        return Err(ContractError::InsufficientLiquidity);
    }
    let yes = market.shares_yes;
    let no = market.shares_no;
    let yes_part = match amount.checked_mul(yes) {
        Some(v) => v,
        None => return Err(ContractError::Overflow),
    };
    let no_part = match amount.checked_mul(no) {
        Some(v) => v,
        None => return Err(ContractError::Overflow),
    };
    let withdraw_yes = yes_part / total;
    let withdraw_no = no_part / total;
    proof {
        lemma_withdrawn_part(amount as int, yes as int, total as int);
        lemma_withdrawn_part(amount as int, no as int, total as int);
    }
    let new_yes = yes - withdraw_yes;
    let new_no = no - withdraw_no;
    let (price_yes, price_no) = pool_prices(new_yes, new_no)?;
    proof {
        if new_yes + new_no > 0 {
            lemma_prices_sum(new_yes as int, new_no as int);
        }
    }
    market.shares_yes = new_yes;
    market.shares_no = new_no;
    market.total_liquidity = total - amount;
    market.price_yes = price_yes;
    market.price_no = price_no;
    provider.contributed_liquidity = contributed - amount;
    Ok(
        LiquidityRemoved {
            liquidity_removed: amount,
            shares_yes_withdrawn: withdraw_yes,
            shares_no_withdrawn: withdraw_no,
            price_yes,
            price_no,
        },
    )
}

/// The part `amount * pool / total` of a pool is at most the pool, and less
/// than a non-empty pool while `amount` is below `total`.
proof fn lemma_withdrawn_part(amount: int, pool: int, total: int)
    requires
        0 < amount <= total,
        0 <= pool,
    ensures
        amount * pool / total <= pool,
        amount < total && pool > 0 ==> amount * pool / total < pool,
{
    let w = amount * pool / total;
    assert(amount * pool <= total * pool) by (nonlinear_arith)
        requires
            amount <= total,
            0 <= pool,
    ;
    vstd::arithmetic::div_mod::lemma_div_is_ordered(amount * pool, total * pool, total);
    assert(total * pool == pool * total) by (nonlinear_arith);
    vstd::arithmetic::div_mod::lemma_div_by_multiple(pool, total);
    vstd::arithmetic::div_mod::lemma_fundamental_div_mod(amount * pool, total);
    vstd::arithmetic::div_mod::lemma_mod_bound(amount * pool, total);
    if amount < total && pool > 0 {
        assert(w < pool) by (nonlinear_arith)
            requires
                amount * pool == total * w + (amount * pool) % total,
                0 <= (amount * pool) % total,
                amount < total,
                pool > 0,
                w <= pool,
        ;
    }
}

/// A purchase with `amount` of the outcome whose pool is `own`, against the
/// opposite pool `other`, in a market of liquidity `total`: (own pool,
/// opposite pool, shares bought). Both pools first grow by `amount`; the own
/// pool is then set so that its product with the opposite pool is
/// `total * total`, rounded down, and what it gave up is bought.
pub open spec fn purchase_effect(own: int, other: int, total: int, amount: int) -> (int, int, int) {
    let balanced = (total * total) / (other + amount);
    (balanced, other + amount, own + amount - balanced)
}

/// Why a purchase refuses, if it does, for a buyer holding `held` shares of
/// the outcome bought.
pub open spec fn purchase_error(own: int, other: int, total: int, held: int, amount: int) -> Option<
    ContractError,
> {
    let e = purchase_effect(own, other, total, amount);
    if !fits(own + amount) || !fits(other + amount) || !fits(total * total) {
        Some(ContractError::Overflow)
    } else if other + amount == 0 {
        Some(ContractError::DivideByZero)
    } else if e.2 < 0 || !fits(held + e.2) || !prices_fit(e.0, e.1) {
        Some(ContractError::Overflow)
    } else {
        None
    }
}

/// Why `buy_shares` refuses, if it does.
pub open spec fn buy_shares_error(market: Market, buyer: Buyer, outcome: Seq<char>, amount: int) -> Option<
    ContractError,
> {
    if market.resolved {
        Some(ContractError::MarketResolved)
    } else {
        match outcome_of(outcome) {
            None => Some(ContractError::InvalidOutcome),
            Some(o) => purchase_error(
                market.pool(o),
                market.opposite_pool(o),
                market.total_liquidity as int,
                buyer.held(o),
                amount,
            ),
        }
    }
}

fn purchase(own: u128, other: u128, total: u128, amount: u128) -> (r: Result<
    (u128, u128, u128),
    ContractError,
>)
    ensures
        r is Ok <==> fits(own + amount) && fits(other + amount) && fits(total * total) && other
            + amount != 0 && purchase_effect(own as int, other as int, total as int, amount as int).2
            >= 0,
        r is Ok ==> r->Ok_0.0 == purchase_effect(own as int, other as int, total as int, amount as int).0
            && r->Ok_0.1 == purchase_effect(own as int, other as int, total as int, amount as int).1
            && r->Ok_0.2 == purchase_effect(own as int, other as int, total as int, amount as int).2,
        r is Err ==> r->Err_0 == (if !fits(own + amount) || !fits(other + amount) || !fits(
            total * total,
        ) {
            ContractError::Overflow
        } else if other + amount == 0 {
            ContractError::DivideByZero
        } else {
            ContractError::Overflow
        }),
{
    let grown_own = match own.checked_add(amount) {
        Some(v) => v,
        None => return Err(ContractError::Overflow),
    };
    let grown_other = match other.checked_add(amount) {
        Some(v) => v,
        None => return Err(ContractError::Overflow),
    };
    let anchor = match total.checked_mul(total) {
        Some(v) => v,
        None => return Err(ContractError::Overflow),
    };
    if grown_other == 0 {
        return Err(ContractError::DivideByZero);
    }
    let balanced = anchor / grown_other;
    match grown_own.checked_sub(balanced) {
        Some(bought) => Ok((balanced, grown_other, bought)),
        None => Err(ContractError::Overflow),
    }
}

/// Buys shares of `outcome` with `amount` for the holder of `buyer` (a
/// fresh record where the holder has none). No trading fee is taken: the
/// whole `amount` goes into the pools.
pub fn buy_shares(market: &mut Market, buyer: &mut Buyer, outcome: &str, amount: u128) -> (r:
    Result<SharesBought, ContractError>)
    ensures
        r is Ok <==> buy_shares_error(*old(market), *old(buyer), outcome@, amount as int) is None,
        r is Err ==> buy_shares_error(*old(market), *old(buyer), outcome@, amount as int) == Some(
            r->Err_0,
        ),
        r is Err ==> *final(market) == *old(market) && *final(buyer) == *old(buyer),
        r is Ok ==> outcome_of(outcome@) == Some(r->Ok_0.outcome),
        r is Ok ==> r->Ok_0.shares_bought == purchase_effect(
            old(market).pool(r->Ok_0.outcome),
            old(market).opposite_pool(r->Ok_0.outcome),
            old(market).total_liquidity as int,
            amount as int,
        ).2,
        r is Ok ==> *final(market) == old(market).with_outcome_pools(
            r->Ok_0.outcome,
            purchase_effect(
                old(market).pool(r->Ok_0.outcome),
                old(market).opposite_pool(r->Ok_0.outcome),
                old(market).total_liquidity as int,
                amount as int,
            ).0,
            purchase_effect(
                old(market).pool(r->Ok_0.outcome),
                old(market).opposite_pool(r->Ok_0.outcome),
                old(market).total_liquidity as int,
                amount as int,
            ).1,
        ),
        r is Ok ==> final(market).prices_current() && final(market).prices_balanced(),
        r is Ok ==> *final(buyer) == old(buyer).with_held(
            r->Ok_0.outcome,
            old(buyer).held(r->Ok_0.outcome) + r->Ok_0.shares_bought,
        ),
        r is Ok ==> final(market).pools_nonempty(),
        r is Ok ==> r->Ok_0.price_yes == final(market).price_yes,
        r is Ok ==> r->Ok_0.price_no == final(market).price_no,
{
    if market.resolved {
        return Err(ContractError::MarketResolved);
    }
    let o = match parse_outcome(outcome) {
        Some(o) => o,
        None => return Err(ContractError::InvalidOutcome),
    };
    let (own, other, held) = match o {
        Outcome::Yes => (market.shares_yes, market.shares_no, buyer.shares_yes),
        Outcome::No => (market.shares_no, market.shares_yes, buyer.shares_no),
    };
    let (new_own, new_other, bought) = purchase(own, other, market.total_liquidity, amount)?;
    let new_held = match held.checked_add(bought) {
        Some(v) => v,
        None => return Err(ContractError::Overflow),
    };
    let (new_yes, new_no) = match o {
        Outcome::Yes => (new_own, new_other),
        Outcome::No => (new_other, new_own),
    };
    let (price_yes, price_no) = pool_prices(new_yes, new_no)?;
    proof {
        if new_yes + new_no > 0 {
            lemma_prices_sum(new_yes as int, new_no as int);
        }
    }
    market.shares_yes = new_yes;
    market.shares_no = new_no;
    market.price_yes = price_yes;
    market.price_no = price_no;
    match o {
        Outcome::Yes => buyer.shares_yes = new_held,
        Outcome::No => buyer.shares_no = new_held,
    }
    Ok(SharesBought { outcome: o, shares_bought: bought, price_yes, price_no })
}

/// A sale of `amount` shares of the outcome whose pool is `own`, against the
/// opposite pool `other`: (own pool, opposite pool, amount received). The own
/// pool shrinks by `amount`; the opposite pool is set so that the product of
/// the pools stays what it was, rounded down, and the seller receives what
/// the opposite pool released.
pub open spec fn sale_effect(own: int, other: int, amount: int) -> (int, int, int) {
    let reduced = own - amount;
    let rebalanced = (own * other) / reduced;
    (reduced, rebalanced, other - rebalanced)
}

/// Why a sale refuses, if it does, for a seller holding `held` shares of the
/// outcome sold. A sale that would grow the opposite pool releases nothing
/// from it and is refused.
pub open spec fn sale_error(own: int, other: int, held: int, amount: int) -> Option<ContractError> {
    let e = sale_effect(own, other, amount);
    if held < amount {
        Some(ContractError::InsufficientShares)
    } else if !fits(own * other) || own < amount {
        Some(ContractError::Overflow)
    } else if own == amount {
        Some(ContractError::DivideByZero)
    } else if e.2 < 0 || !prices_fit(e.0, e.1) {
        Some(ContractError::Overflow)
    } else {
        None
    }
}

/// Why `sell_shares` refuses, if it does.
pub open spec fn sell_shares_error(market: Market, buyer: Buyer, outcome: Seq<char>, amount: int) -> Option<
    ContractError,
> {
    if market.resolved {
        Some(ContractError::MarketResolved)
    } else {
        match outcome_of(outcome) {
            None => Some(ContractError::InvalidOutcome),
            Some(o) => sale_error(market.pool(o), market.opposite_pool(o), buyer.held(o), amount),
        }
    }
}

fn sale(own: u128, other: u128, amount: u128) -> (r: Result<(u128, u128, u128), ContractError>)
    requires
        amount <= own,
    ensures
        r is Ok <==> fits(own * other) && own != amount && sale_effect(
            own as int,
            other as int,
            amount as int,
        ).2 >= 0,
        r is Ok ==> r->Ok_0.0 == sale_effect(own as int, other as int, amount as int).0
            && r->Ok_0.1 == sale_effect(own as int, other as int, amount as int).1
            && r->Ok_0.2 == sale_effect(own as int, other as int, amount as int).2,
        r is Err ==> r->Err_0 == (if fits(own * other) && own == amount {
            ContractError::DivideByZero
        } else {
            ContractError::Overflow
        }),
{
    let product = match own.checked_mul(other) {
        Some(v) => v,
        None => return Err(ContractError::Overflow),
    };
    let reduced = own - amount;
    if reduced == 0 {
        return Err(ContractError::DivideByZero);
    }
    let rebalanced = product / reduced;
    match other.checked_sub(rebalanced) {
        Some(released) => Ok((reduced, rebalanced, released)),
        None => Err(ContractError::Overflow),
    }
}

/// Sells `amount` shares of `outcome` held in `buyer`; the seller receives
/// what the opposite pool releases.
pub fn sell_shares(market: &mut Market, buyer: &mut Buyer, outcome: &str, amount: u128) -> (r:
    Result<SharesSold, ContractError>)
    ensures
        r is Ok <==> sell_shares_error(*old(market), *old(buyer), outcome@, amount as int) is None,
        r is Err ==> sell_shares_error(*old(market), *old(buyer), outcome@, amount as int) == Some(
            r->Err_0,
        ),
        r is Err ==> *final(market) == *old(market) && *final(buyer) == *old(buyer),
        r is Ok ==> outcome_of(outcome@) == Some(r->Ok_0.outcome),
        r is Ok ==> r->Ok_0.shares_sold == amount,
        r is Ok ==> r->Ok_0.usdc_received == sale_effect(
            old(market).pool(r->Ok_0.outcome),
            old(market).opposite_pool(r->Ok_0.outcome),
            amount as int,
        ).2,
        r is Ok ==> *final(market) == old(market).with_outcome_pools(
            r->Ok_0.outcome,
            sale_effect(
                old(market).pool(r->Ok_0.outcome),
                old(market).opposite_pool(r->Ok_0.outcome),
                amount as int,
            ).0,
            sale_effect(
                old(market).pool(r->Ok_0.outcome),
                old(market).opposite_pool(r->Ok_0.outcome),
                amount as int,
            ).1,
        ),
        r is Ok ==> final(market).prices_current() && final(market).prices_balanced(),
        r is Ok ==> *final(buyer) == old(buyer).with_held(
            r->Ok_0.outcome,
            old(buyer).held(r->Ok_0.outcome) - amount,
        ),
        r is Ok ==> r->Ok_0.usdc_received == old(market).opposite_pool(r->Ok_0.outcome)
            - final(market).opposite_pool(r->Ok_0.outcome),
        r is Ok ==> final(market).pools_nonempty(),
        r is Ok ==> r->Ok_0.price_yes == final(market).price_yes,
        r is Ok ==> r->Ok_0.price_no == final(market).price_no,
{
    if market.resolved {
        return Err(ContractError::MarketResolved);
    }
    let o = match parse_outcome(outcome) {
        Some(o) => o,
        None => return Err(ContractError::InvalidOutcome),
    };
    let (own, other, held) = match o {
        Outcome::Yes => (market.shares_yes, market.shares_no, buyer.shares_yes),
        Outcome::No => (market.shares_no, market.shares_yes, buyer.shares_no),
    };
    if held < amount {
        return Err(ContractError::InsufficientShares);
    }
    if own < amount {
        return Err(ContractError::Overflow);
    }
    let (new_own, new_other, received) = sale(own, other, amount)?;
    let (new_yes, new_no) = match o {
        Outcome::Yes => (new_own, new_other),
        Outcome::No => (new_other, new_own),
    };
    let (price_yes, price_no) = pool_prices(new_yes, new_no)?;
    proof {
        if new_yes + new_no > 0 {
            lemma_prices_sum(new_yes as int, new_no as int);
        }
    }
    market.shares_yes = new_yes;
    market.shares_no = new_no;
    market.price_yes = price_yes;
    market.price_no = price_no;
    match o {
        Outcome::Yes => buyer.shares_yes = held - amount,
        Outcome::No => buyer.shares_no = held - amount,
    }
    Ok(
        SharesSold {
            outcome: o,
            shares_sold: amount,
            usdc_received: received,
            price_yes,
            price_no,
        },
    )
}

/// Why `resolve_market` refuses, if it does.
pub open spec fn resolve_market_error(
    market: Market,
    sender: Seq<char>,
    winning_outcome: Seq<char>,
) -> Option<ContractError> {
    if market.resolved {
        Some(ContractError::AlreadyResolved)
    } else if sender != market.creator@ {
        Some(ContractError::NotCreator)
    } else if outcome_of(winning_outcome) is None {
        Some(ContractError::InvalidOutcome)
    } else {
        None
    }
}

/// Freezes `market` with `winning_outcome`, at the request of `sender`, and
/// works out what is owed: to each holder in `buyers` its balance of the
/// winning outcome, to each provider in `providers` its contribution.
pub fn resolve_market(
    market: &mut Market,
    sender: &String,
    winning_outcome: &str,
    buyers: &Vec<Buyer>,
    providers: &Vec<LiquidityProvider>,
) -> (r: Result<Resolution, ContractError>)
    ensures
        r is Ok <==> resolve_market_error(*old(market), sender@, winning_outcome@) is None,
        r is Err ==> resolve_market_error(*old(market), sender@, winning_outcome@) == Some(
            r->Err_0,
        ),
        r is Err ==> *final(market) == *old(market),
        old(market).resolved ==> r is Err,
        sender@ != old(market).creator@ ==> r is Err,
        r is Ok ==> outcome_of(winning_outcome@) == Some(r->Ok_0.winning_outcome),
        r is Ok ==> *final(market) == old(market).resolved_as(r->Ok_0.winning_outcome),
        r is Ok ==> r->Ok_0.buyer_payouts@.len() == buyers@.len(),
        r is Ok ==> forall|i: int|
            0 <= i < buyers@.len() ==> r->Ok_0.buyer_payouts@[i] == #[trigger] buyers@[i].held(
                r->Ok_0.winning_outcome,
            ),
        r is Ok ==> r->Ok_0.provider_payouts@.len() == providers@.len(),
        r is Ok ==> forall|i: int|
            0 <= i < providers@.len() ==> r->Ok_0.provider_payouts@[i]
                == #[trigger] providers@[i].contributed_liquidity,
{
    if market.resolved {
        return Err(ContractError::AlreadyResolved);
    }
    if *sender != market.creator {
        return Err(ContractError::NotCreator);
    }
    let outcome = match parse_outcome(winning_outcome) {
        Some(o) => o,
        None => return Err(ContractError::InvalidOutcome),
    };
    market.resolved = true;
    market.winning_outcome = Some(outcome);

    let mut buyer_payouts: Vec<u128> = Vec::new();
    let mut i: usize = 0;
    while i < buyers.len()
        invariant
            i <= buyers@.len(),
            buyer_payouts@.len() == i,
            forall|j: int| 0 <= j < i ==> buyer_payouts@[j] == #[trigger] buyers@[j].held(outcome),
        decreases buyers@.len() - i,
    {
        let payout = match outcome {
            Outcome::Yes => buyers[i].shares_yes,
            Outcome::No => buyers[i].shares_no,
        };
        buyer_payouts.push(payout);
        i = i + 1;
    }

    let mut provider_payouts: Vec<u128> = Vec::new();
    let mut k: usize = 0;
    while k < providers.len()
        invariant
            k <= providers@.len(),
            provider_payouts@.len() == k,
            forall|j: int|
                0 <= j < k ==> provider_payouts@[j] == #[trigger] providers@[j].contributed_liquidity,
        decreases providers@.len() - k,
    {
        provider_payouts.push(providers[k].contributed_liquidity);
        k = k + 1;
    }
    Ok(Resolution { winning_outcome: outcome, buyer_payouts, provider_payouts })
}

/// The legacy counter.
pub fn count(state: &State) -> (r: GetCountResponse)
    ensures
        r.count == state.count,
{
    GetCountResponse { count: state.count }
}

} // verus!
