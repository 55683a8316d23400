use vstd::prelude::*;

use crate::error::ContractError;

verus! {

/// Scale of every price: a price of `DECIMAL_PRECISION` is a probability of one.
pub const DECIMAL_PRECISION: u128 = 100_000_000;

/// Whether a quantity can be held in a `u128`.
pub open spec fn fits(x: int) -> bool {
    0 <= x <= u128::MAX
}

/// Price of the outcome whose pool is `pool`, against the opposite pool
/// `other`: the opposite pool's share of both, scaled to `DECIMAL_PRECISION`,
/// rounded down; zero when both pools are empty.
pub open spec fn price_of(pool: int, other: int) -> int {
    if pool + other == 0 {
        0
    } else {
        (other * DECIMAL_PRECISION) / (pool + other)
    }
}

/// Whether `price_of(pool, other)` can be computed in `u128`.
pub open spec fn price_fits(pool: int, other: int) -> bool {
    fits(pool + other) && fits(other * DECIMAL_PRECISION)
}

/// Whether both prices of the pools `yes` and `no` can be computed in `u128`.
pub open spec fn prices_fit(yes: int, no: int) -> bool {
    price_fits(yes, no) && price_fits(no, yes)
}

/// Price of the outcome whose pool is `share_pool`.
pub fn calculate_price(share_pool: u128, other_pool: u128) -> (r: Result<u128, ContractError>)
    ensures
        r is Ok <==> price_fits(share_pool as int, other_pool as int),
        r is Ok ==> r->Ok_0 == price_of(share_pool as int, other_pool as int),
        r is Err ==> r->Err_0 == ContractError::Overflow,
{
    let total_shares = match share_pool.checked_add(other_pool) {
        Some(t) => t,
        None => return Err(ContractError::Overflow),
    };
    if total_shares == 0 {
        return Ok(0);
    }
    match other_pool.checked_mul(DECIMAL_PRECISION) {
        Some(scaled) => Ok(scaled / total_shares),
        None => Err(ContractError::Overflow),
    }
}

/// Both prices of the pools `yes` and `no`, YES first.
pub fn pool_prices(yes: u128, no: u128) -> (r: Result<(u128, u128), ContractError>)
    ensures
        r is Ok <==> prices_fit(yes as int, no as int),
        r is Ok ==> r->Ok_0.0 == price_of(yes as int, no as int) && r->Ok_0.1 == price_of(
            no as int,
            yes as int,
        ),
        r is Err ==> r->Err_0 == ContractError::Overflow,
{
    let price_yes = calculate_price(yes, no)?;
    let price_no = calculate_price(no, yes)?;
    Ok((price_yes, price_no))
}

/// The two prices of a market with at least one non-empty pool add up to
/// `DECIMAL_PRECISION`, or fall short of it by one through rounding.
pub proof fn lemma_prices_sum(yes: int, no: int)
    requires
        yes >= 0,
        no >= 0,
        yes + no > 0,
    ensures
        DECIMAL_PRECISION - 1 <= price_of(yes, no) + price_of(no, yes) <= DECIMAL_PRECISION,
{
    let s = yes + no;
    let p = DECIMAL_PRECISION as int;
    let a = no * p;
    let b = yes * p;
    let qa = a / s;
    let qb = b / s;
    vstd::arithmetic::div_mod::lemma_fundamental_div_mod(a, s);
    vstd::arithmetic::div_mod::lemma_fundamental_div_mod(b, s);
    vstd::arithmetic::div_mod::lemma_mod_bound(a, s);
    vstd::arithmetic::div_mod::lemma_mod_bound(b, s);
    assert(a + b == s * p) by (nonlinear_arith)
        requires
            a == no * p,
            b == yes * p,
            s == yes + no,
    ;
    let k = p - qa - qb;
    assert(s * k == a % s + b % s) by (nonlinear_arith)
        requires
            a == s * qa + a % s,
            b == s * qb + b % s,
            a + b == s * p,
            k == p - qa - qb,
    ;
    assert(0 <= k <= 1) by (nonlinear_arith)
        requires
            s * k == a % s + b % s,
            0 <= a % s < s,
            0 <= b % s < s,
            s > 0,
    ;
}

} // verus!
