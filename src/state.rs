use vstd::prelude::*;

use crate::pricing::{price_of, DECIMAL_PRECISION};

verus! {

/// One of the two outcomes of a market.
#[derive(Debug, Clone, Copy, PartialEq, Eq, Structural)]
pub enum Outcome {
    Yes,
    No,
}

/// The outcome that a literal names: `"YES"` or `"NO"`, nothing else.
pub open spec fn outcome_of(s: Seq<char>) -> Option<Outcome> {
    if s == seq!['Y', 'E', 'S'] {
        Some(Outcome::Yes)
    } else if s == seq!['N', 'O'] {
        Some(Outcome::No)
    } else {
        None
    }
}

/// Reads an outcome literal.
pub fn parse_outcome(s: &str) -> (r: Option<Outcome>)
    ensures
        r == outcome_of(s@),
{
    let len = s.unicode_len();
    if len == 3 && s.get_char(0) == 'Y' && s.get_char(1) == 'E' && s.get_char(2) == 'S' {
        assert(s@ =~= seq!['Y', 'E', 'S']);
        Some(Outcome::Yes)
    } else if len == 2 && s.get_char(0) == 'N' && s.get_char(1) == 'O' {
        assert(s@ =~= seq!['N', 'O']);
        Some(Outcome::No)
    } else {
        assert(s@ != seq!['Y', 'E', 'S'] && s@ != seq!['N', 'O']) by {
            if s@ == seq!['Y', 'E', 'S'] {
                assert(s@[0] == 'Y' && s@[1] == 'E' && s@[2] == 'S');
            }
            if s@ == seq!['N', 'O'] {
                assert(s@[0] == 'N' && s@[1] == 'O');
            }
        }
        None
    }
}

/// Legacy counter record, unrelated to the markets.
#[derive(Debug, Clone)]
pub struct State {
    pub count: i32,
    pub owner: String,
}

/// One prediction question and its two pools.
#[derive(Debug, Clone)]
pub struct Market {
    /// The only identity that may resolve the market.
    pub creator: String,
    pub description: String,
    /// Reserve of the YES pool.
    pub shares_yes: u128,
    /// Reserve of the NO pool.
    pub shares_no: u128,
    /// Net liquidity contributed: deposits minus withdrawals.
    pub total_liquidity: u128,
    /// Product of the pools at creation.
    pub total_liquidity_shares: u128,
    pub resolved: bool,
    pub winning_outcome: Option<Outcome>,
    pub price_yes: u128,
    pub price_no: u128,
}

/// A holder's outcome shares in one market.
#[derive(Debug, Clone)]
pub struct Buyer {
    pub address: String,
    pub shares_yes: u128,
    pub shares_no: u128,
}

/// A holder's net liquidity contribution to one market.
#[derive(Debug, Clone)]
pub struct LiquidityProvider {
    pub address: String,
    pub contributed_liquidity: u128,
}

impl Market {
    /// The stored prices are those of the stored pools.
    pub open spec fn prices_current(&self) -> bool {
        &&& self.price_yes == price_of(self.shares_yes as int, self.shares_no as int)
        &&& self.price_no == price_of(self.shares_no as int, self.shares_yes as int)
    }

    /// The prices add up to `DECIMAL_PRECISION` up to one unit of rounding,
    /// unless both pools are empty.
    pub open spec fn prices_balanced(&self) -> bool {
        self.shares_yes + self.shares_no > 0 ==> DECIMAL_PRECISION - 1 <= self.price_yes
            + self.price_no <= DECIMAL_PRECISION
    }

    /// At least one pool holds shares.
    pub open spec fn pools_nonempty(&self) -> bool {
        self.shares_yes + self.shares_no > 0
    }

    /// This market with the given pools and liquidity, repriced.
    pub open spec fn with_pools(self, yes: int, no: int, total: int) -> Market {
        Market {
            creator: self.creator,
            description: self.description,
            shares_yes: yes as u128,
            shares_no: no as u128,
            total_liquidity: total as u128,
            total_liquidity_shares: self.total_liquidity_shares,
            resolved: self.resolved,
            winning_outcome: self.winning_outcome,
            price_yes: price_of(yes, no) as u128,
            price_no: price_of(no, yes) as u128,
        }
    }

    /// The pool of `outcome`.
    pub open spec fn pool(self, outcome: Outcome) -> int {
        match outcome {
            Outcome::Yes => self.shares_yes as int,
            Outcome::No => self.shares_no as int,
        }
    }

    /// The pool of the outcome opposite to `outcome`.
    pub open spec fn opposite_pool(self, outcome: Outcome) -> int {
        match outcome {
            Outcome::Yes => self.shares_no as int,
            Outcome::No => self.shares_yes as int,
        }
    }

    /// This market with the pool of `outcome` set to `own` and the opposite
    /// pool to `other`, repriced.
    pub open spec fn with_outcome_pools(self, outcome: Outcome, own: int, other: int) -> Market {
        match outcome {
            Outcome::Yes => self.with_pools(own, other, self.total_liquidity as int),
            Outcome::No => self.with_pools(other, own, self.total_liquidity as int),
        }
    }

    /// This market, resolved in favour of `outcome`.
    pub open spec fn resolved_as(self, outcome: Outcome) -> Market {
        Market { resolved: true, winning_outcome: Some(outcome), ..self }
    }
}

impl Buyer {
    /// A holder with no shares.
    pub fn new(address: String) -> (r: Buyer)
        ensures
            r.address == address,
            r.shares_yes == 0,
            r.shares_no == 0,
    {
        Buyer { address, shares_yes: 0, shares_no: 0 }
    }

    /// Shares held of `outcome`.
    pub open spec fn held(self, outcome: Outcome) -> int {
        match outcome {
            Outcome::Yes => self.shares_yes as int,
            Outcome::No => self.shares_no as int,
        }
    }

    /// This holder with its balance of `outcome` set to `value`.
    pub open spec fn with_held(self, outcome: Outcome, value: int) -> Buyer {
        match outcome {
            Outcome::Yes => Buyer { shares_yes: value as u128, ..self },
            Outcome::No => Buyer { shares_no: value as u128, ..self },
        }
    }
}

impl LiquidityProvider {
    /// A provider with nothing contributed.
    pub fn new(address: String) -> (r: LiquidityProvider)
        ensures
            r.address == address,
            r.contributed_liquidity == 0,
    {
        LiquidityProvider { address, contributed_liquidity: 0 }
    }
}

} // verus!
