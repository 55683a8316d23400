use truth_markets::{
    add_liquidity, buy_shares, calculate_price, count, create_market, parse_outcome,
    remove_liquidity, resolve_market, sell_shares, Buyer, ContractError, LiquidityProvider,
    Market, Outcome, State, DECIMAL_PRECISION,
};

fn fresh(liquidity: u128) -> Market {
    create_market(None, "creator".to_string(), "Question".to_string(), liquidity)
        .unwrap()
        .market
}

fn price_sum_ok(m: &Market) -> bool {
    let s = m.price_yes + m.price_no;
    s == DECIMAL_PRECISION || s + 1 == DECIMAL_PRECISION
}

#[test]
fn create_market_sets_equal_pools_and_half_prices() {
    let created = create_market(None, "alice".to_string(), "Q?".to_string(), 1000).unwrap();
    let m = created.market;
    assert_eq!(created.market_id, 1);
    assert_eq!(m.creator, "alice");
    assert_eq!(m.description, "Q?");
    assert_eq!(m.shares_yes, 1000);
    assert_eq!(m.shares_no, 1000);
    assert_eq!(m.total_liquidity, 1000);
    assert_eq!(m.total_liquidity_shares, 1_000_000);
    assert!(!m.resolved);
    assert_eq!(m.winning_outcome, None);
    assert_eq!(m.price_yes, 50_000_000);
    assert_eq!(m.price_no, 50_000_000);
}

#[test]
fn create_market_ids_are_sequential() {
    let created = create_market(Some(4), "a".to_string(), "d".to_string(), 7).unwrap();
    assert_eq!(created.market_id, 5);
}

#[test]
fn create_market_rejects_zero_liquidity() {
    let r = create_market(None, "a".to_string(), "d".to_string(), 0);
    assert_eq!(r.unwrap_err(), ContractError::Unauthorized);
}

#[test]
fn create_market_rejects_exhausted_counter() {
    let r = create_market(Some(u64::MAX), "a".to_string(), "d".to_string(), 10);
    assert_eq!(r.unwrap_err(), ContractError::Overflow);
}

#[test]
fn create_market_rejects_liquidity_whose_square_overflows() {
    let r = create_market(None, "a".to_string(), "d".to_string(), u128::MAX);
    assert_eq!(r.unwrap_err(), ContractError::Overflow);
}

#[test]
fn calculate_price_exact_values() {
    assert_eq!(calculate_price(769, 1300), Ok(62832286));
    assert_eq!(calculate_price(1300, 769), Ok(37167713));
    assert_eq!(calculate_price(0, 0), Ok(0));
    assert_eq!(calculate_price(0, 5), Ok(DECIMAL_PRECISION));
    assert_eq!(calculate_price(u128::MAX, 1), Err(ContractError::Overflow));
}

#[test]
fn parse_outcome_accepts_only_the_two_literals() {
    assert_eq!(parse_outcome("YES"), Some(Outcome::Yes));
    assert_eq!(parse_outcome("NO"), Some(Outcome::No));
    assert_eq!(parse_outcome("yes"), None);
    assert_eq!(parse_outcome("MAYBE"), None);
    assert_eq!(parse_outcome(""), None);
}

#[test]
fn balanced_add_grows_both_pools_and_mints_nothing() {
    let mut m = fresh(1000);
    let mut p = LiquidityProvider::new("lp".to_string());
    let mut b = Buyer::new("lp".to_string());
    let r = add_liquidity(&mut m, &mut p, &mut b, 250).unwrap();
    assert_eq!(m.shares_yes, 1250);
    assert_eq!(m.shares_no, 1250);
    assert_eq!(m.total_liquidity, 1250);
    assert_eq!(r.shares_yes_to_provider, 0);
    assert_eq!(r.shares_no_to_provider, 0);
    assert_eq!(b.shares_yes, 0);
    assert_eq!(b.shares_no, 0);
    assert_eq!(p.contributed_liquidity, 250);
}

#[test]
fn add_liquidity_on_resolved_market_fails() {
    let mut m = fresh(1000);
    resolve_market(&mut m, &"creator".to_string(), "NO", &vec![], &vec![]).unwrap();
    let mut p = LiquidityProvider::new("lp".to_string());
    let mut b = Buyer::new("lp".to_string());
    let r = add_liquidity(&mut m, &mut p, &mut b, 10);
    assert_eq!(r.unwrap_err(), ContractError::MarketResolved);
    assert_eq!(m.shares_yes, 1000);
    assert_eq!(p.contributed_liquidity, 0);
}

#[test]
fn add_liquidity_with_zero_price_divisor_fails() {
    let mut m = fresh(1000);
    m.shares_yes = 10;
    m.price_yes = 0;
    let mut p = LiquidityProvider::new("lp".to_string());
    let mut b = Buyer::new("lp".to_string());
    let r = add_liquidity(&mut m, &mut p, &mut b, 10);
    assert_eq!(r.unwrap_err(), ContractError::DivideByZero);
    assert_eq!(m.shares_yes, 10);
}

#[test]
fn add_liquidity_overflow_leaves_records_unchanged() {
    let mut m = fresh(1000);
    let mut p = LiquidityProvider::new("lp".to_string());
    let mut b = Buyer::new("lp".to_string());
    let r = add_liquidity(&mut m, &mut p, &mut b, u128::MAX);
    assert_eq!(r.unwrap_err(), ContractError::Overflow);
    assert_eq!(m.shares_yes, 1000);
    assert_eq!(m.total_liquidity, 1000);
    assert_eq!(p.contributed_liquidity, 0);
}

#[test]
fn buy_no_shares_mirrors_buy_yes() {
    let mut m = fresh(1000);
    let mut b = Buyer::new("t".to_string());
    let r = buy_shares(&mut m, &mut b, "NO", 300).unwrap();
    assert_eq!(r.outcome, Outcome::No);
    assert_eq!(r.shares_bought, 531);
    assert_eq!(m.shares_yes, 1300);
    assert_eq!(m.shares_no, 769);
    assert_eq!(m.price_yes, 37167713);
    assert_eq!(m.price_no, 62832286);
    assert_eq!(r.price_yes, 37167713);
    assert_eq!(b.shares_no, 531);
    assert_eq!(b.shares_yes, 0);
    assert!(price_sum_ok(&m));
}

#[test]
fn buy_with_invalid_outcome_fails() {
    let mut m = fresh(1000);
    let mut b = Buyer::new("t".to_string());
    let r = buy_shares(&mut m, &mut b, "MAYBE", 300);
    assert_eq!(r.unwrap_err(), ContractError::InvalidOutcome);
    assert_eq!(m.shares_yes, 1000);
}

#[test]
fn buy_on_resolved_market_fails() {
    let mut m = fresh(1000);
    resolve_market(&mut m, &"creator".to_string(), "YES", &vec![], &vec![]).unwrap();
    let mut b = Buyer::new("t".to_string());
    let r = buy_shares(&mut m, &mut b, "YES", 300);
    assert_eq!(r.unwrap_err(), ContractError::MarketResolved);
}

#[test]
fn buy_into_empty_pools_with_nothing_divides_by_zero() {
    let mut m = fresh(1000);
    m.shares_yes = 0;
    m.shares_no = 0;
    let mut b = Buyer::new("t".to_string());
    let r = buy_shares(&mut m, &mut b, "YES", 0);
    assert_eq!(r.unwrap_err(), ContractError::DivideByZero);
}

#[test]
fn sell_that_grows_opposite_pool_fails() {
    let mut m = fresh(1000);
    let mut b = Buyer::new("t".to_string());
    buy_shares(&mut m, &mut b, "YES", 300).unwrap();
    // 769 * 1300 / 669 = 1494 would exceed the NO pool of 1300.
    let r = sell_shares(&mut m, &mut b, "YES", 100);
    assert_eq!(r.unwrap_err(), ContractError::Overflow);
    assert_eq!(m.shares_yes, 769);
    assert_eq!(m.shares_no, 1300);
    assert_eq!(m.price_yes, 62832286);
    assert_eq!(b.shares_yes, 531);
}

#[test]
fn sell_pays_what_the_opposite_pool_releases() {
    let mut m = fresh(1000);
    m.shares_no = 1;
    let mut b = Buyer::new("t".to_string());
    b.shares_yes = 5;
    // 1000 * 1 / 999 = 1: the NO pool keeps its single share.
    let r = sell_shares(&mut m, &mut b, "YES", 1).unwrap();
    assert_eq!(r.outcome, Outcome::Yes);
    assert_eq!(r.shares_sold, 1);
    assert_eq!(r.usdc_received, 0);
    assert_eq!(m.shares_yes, 999);
    assert_eq!(m.shares_no, 1);
    assert_eq!(m.price_yes, 100_000);
    assert_eq!(m.price_no, 99_900_000);
    assert_eq!(b.shares_yes, 4);
    assert!(price_sum_ok(&m));
}

#[test]
fn sell_more_than_held_fails() {
    let mut m = fresh(1000);
    let mut b = Buyer::new("t".to_string());
    buy_shares(&mut m, &mut b, "YES", 300).unwrap();
    let r = sell_shares(&mut m, &mut b, "YES", 532);
    assert_eq!(r.unwrap_err(), ContractError::InsufficientShares);
    assert_eq!(b.shares_yes, 531);
    assert_eq!(m.shares_yes, 769);
    let r = sell_shares(&mut m, &mut b, "NO", 1);
    assert_eq!(r.unwrap_err(), ContractError::InsufficientShares);
}

#[test]
fn sell_with_invalid_outcome_fails() {
    let mut m = fresh(1000);
    let mut b = Buyer::new("t".to_string());
    let r = sell_shares(&mut m, &mut b, "", 0);
    assert_eq!(r.unwrap_err(), ContractError::InvalidOutcome);
}

#[test]
fn sell_whole_pool_divides_by_zero() {
    let mut m = fresh(1000);
    let mut b = Buyer::new("t".to_string());
    b.shares_no = 1000;
    let r = sell_shares(&mut m, &mut b, "NO", 1000);
    assert_eq!(r.unwrap_err(), ContractError::DivideByZero);
    assert_eq!(b.shares_no, 1000);
}

#[test]
fn remove_liquidity_withdraws_proportionally() {
    let mut m = fresh(1000);
    let mut p = LiquidityProvider::new("lp".to_string());
    let mut b = Buyer::new("lp".to_string());
    add_liquidity(&mut m, &mut p, &mut b, 500).unwrap();
    let r = remove_liquidity(&mut m, &mut p, 200).unwrap();
    // Each pool gives up 200 * 1500 / 1500.
    assert_eq!(r.liquidity_removed, 200);
    assert_eq!(r.shares_yes_withdrawn, 200);
    assert_eq!(r.shares_no_withdrawn, 200);
    assert_eq!(m.shares_yes, 1300);
    assert_eq!(m.shares_no, 1300);
    assert_eq!(m.total_liquidity, 1300);
    assert_eq!(m.price_yes, 50_000_000);
    assert_eq!(r.price_no, 50_000_000);
    assert_eq!(p.contributed_liquidity, 300);
}

#[test]
fn remove_liquidity_beyond_contribution_fails() {
    let mut m = fresh(1000);
    let mut p = LiquidityProvider::new("lp".to_string());
    let mut b = Buyer::new("lp".to_string());
    add_liquidity(&mut m, &mut p, &mut b, 500).unwrap();
    let r = remove_liquidity(&mut m, &mut p, 501);
    assert_eq!(r.unwrap_err(), ContractError::InsufficientLiquidity);
    assert_eq!(m.shares_yes, 1500);
    assert_eq!(p.contributed_liquidity, 500);
}

#[test]
fn remove_liquidity_zero_and_resolved_fail() {
    let mut m = fresh(1000);
    let mut p = LiquidityProvider::new("lp".to_string());
    p.contributed_liquidity = 100;
    assert_eq!(remove_liquidity(&mut m, &mut p, 0).unwrap_err(), ContractError::ZeroAmount);
    resolve_market(&mut m, &"creator".to_string(), "YES", &vec![], &vec![]).unwrap();
    assert_eq!(
        remove_liquidity(&mut m, &mut p, 10).unwrap_err(),
        ContractError::MarketResolved
    );
}

#[test]
fn remove_liquidity_beyond_market_liquidity_fails() {
    let mut m = fresh(1000);
    m.total_liquidity = 5;
    let mut p = LiquidityProvider::new("lp".to_string());
    p.contributed_liquidity = 100;
    let r = remove_liquidity(&mut m, &mut p, 10);
    assert_eq!(r.unwrap_err(), ContractError::InsufficientLiquidity);
    assert_eq!(m.total_liquidity, 5);
    assert_eq!(p.contributed_liquidity, 100);
}

#[test]
fn remove_liquidity_with_unequal_pools_withdraws_by_pool_size() {
    let mut m = fresh(1000);
    let mut t = Buyer::new("t".to_string());
    buy_shares(&mut m, &mut t, "YES", 300).unwrap();
    let mut p = LiquidityProvider::new("lp".to_string());
    let mut b = Buyer::new("lp".to_string());
    add_liquidity(&mut m, &mut p, &mut b, 1000).unwrap();
    // Pools 1360 / 2300, total 2000: 400 * 1360 / 2000 and 400 * 2300 / 2000.
    let r = remove_liquidity(&mut m, &mut p, 400).unwrap();
    assert_eq!(r.shares_yes_withdrawn, 272);
    assert_eq!(r.shares_no_withdrawn, 460);
    assert_eq!(m.shares_yes, 1088);
    assert_eq!(m.shares_no, 1840);
    assert_eq!(m.total_liquidity, 1600);
    assert_eq!(p.contributed_liquidity, 600);
    assert!(price_sum_ok(&m));
}

#[test]
fn deposit_then_withdrawal_by_new_provider_round_trips() {
    let mut m = fresh(1000);
    let mut p = LiquidityProvider::new("lp".to_string());
    let mut b = Buyer::new("lp".to_string());
    add_liquidity(&mut m, &mut p, &mut b, 500).unwrap();
    remove_liquidity(&mut m, &mut p, 500).unwrap();
    assert_eq!(m.shares_yes, 1000);
    assert_eq!(m.shares_no, 1000);
    assert_eq!(m.total_liquidity, 1000);
    assert_eq!(m.price_yes, 50_000_000);
    assert_eq!(m.price_no, 50_000_000);
    assert_eq!(p.contributed_liquidity, 0);
    assert_eq!(b.shares_yes, 0);
    assert_eq!(b.shares_no, 0);
}

#[test]
fn prices_sum_to_precision_after_each_operation() {
    let mut m = fresh(1000);
    assert!(price_sum_ok(&m));
    let mut t = Buyer::new("t".to_string());
    buy_shares(&mut m, &mut t, "YES", 300).unwrap();
    assert!(price_sum_ok(&m));
    assert_eq!(m.price_yes + m.price_no, 99_999_999);
    let mut p = LiquidityProvider::new("lp".to_string());
    let mut b = Buyer::new("lp".to_string());
    add_liquidity(&mut m, &mut p, &mut b, 1000).unwrap();
    assert!(price_sum_ok(&m));
    sell_shares(&mut m, &mut t, "YES", 0).unwrap();
    assert!(price_sum_ok(&m));
    remove_liquidity(&mut m, &mut p, 400).unwrap();
    assert!(price_sum_ok(&m));
}

#[test]
fn resolve_market_computes_payouts() {
    let mut m = fresh(1000);
    let mut alice = Buyer::new("alice".to_string());
    let mut bob = Buyer::new("bob".to_string());
    buy_shares(&mut m, &mut alice, "YES", 300).unwrap();
    buy_shares(&mut m, &mut bob, "NO", 100).unwrap();
    let mut lp = LiquidityProvider::new("lp".to_string());
    lp.contributed_liquidity = 42;
    let buyers = vec![alice.clone(), bob.clone()];
    let providers = vec![lp];
    let r = resolve_market(&mut m, &"creator".to_string(), "YES", &buyers, &providers).unwrap();
    assert_eq!(r.winning_outcome, Outcome::Yes);
    assert_eq!(r.buyer_payouts, vec![alice.shares_yes, bob.shares_yes]);
    assert_eq!(r.buyer_payouts, vec![531, 0]);
    assert_eq!(r.provider_payouts, vec![42]);
    assert!(m.resolved);
    assert_eq!(m.winning_outcome, Some(Outcome::Yes));
}

#[test]
fn resolve_twice_fails() {
    let mut m = fresh(1000);
    resolve_market(&mut m, &"creator".to_string(), "NO", &vec![], &vec![]).unwrap();
    let r = resolve_market(&mut m, &"creator".to_string(), "YES", &vec![], &vec![]);
    assert_eq!(r.unwrap_err(), ContractError::AlreadyResolved);
    assert_eq!(m.winning_outcome, Some(Outcome::No));
}

#[test]
fn resolve_by_other_identity_fails() {
    let mut m = fresh(1000);
    let r = resolve_market(&mut m, &"mallory".to_string(), "YES", &vec![], &vec![]);
    assert_eq!(r.unwrap_err(), ContractError::NotCreator);
    assert!(!m.resolved);
}

#[test]
fn resolve_with_invalid_outcome_fails() {
    let mut m = fresh(1000);
    let r = resolve_market(&mut m, &"creator".to_string(), "DRAW", &vec![], &vec![]);
    assert_eq!(r.unwrap_err(), ContractError::InvalidOutcome);
    assert!(!m.resolved);
}

#[test]
fn count_reports_state_counter() {
    let state = State { count: 17, owner: "owner".to_string() };
    assert_eq!(count(&state).count, 17);
}
