//! The values that flow through the trading loop.

use vstd::prelude::*;
use vstd::string::StringExecFns;
use crate::decimal::Decimal;

verus! {

/// One candle: prices and volume over a fixed interval. `timestamp` is the
/// opening time in milliseconds since the Unix epoch.
#[derive(Clone, Copy, Debug)]
pub struct Kline {
    pub timestamp: i64,
    pub open: Decimal,
    pub high: Decimal,
    pub low: Decimal,
    pub close: Decimal,
    pub volume: Decimal,
}

/// A holding as the execution venue reports it.
#[derive(Clone, Debug)]
pub struct Position {
    pub symbol: String,
    pub size: Decimal,
    pub entry_price: Decimal,
    pub current_price: Decimal,
    pub unrealized_pnl: Decimal,
}

/// What a strategy decides for one instrument.
#[derive(Clone, Copy, Debug, PartialEq, Eq, Structural)]
pub enum Signal {
    Buy,
    Sell,
    Hold,
}

#[derive(Clone, Copy, Debug, PartialEq, Eq, Structural)]
pub enum OrderType {
    Buy,
    Sell,
    Hold,
    StopLoss,
}

impl OrderType {
    /// The word by which the venue knows this kind of order.
    pub open spec fn spec_name(self) -> Seq<char> {
        match self {
            OrderType::Buy => "buy"@,
            OrderType::Sell => "sell"@,
            OrderType::Hold => "hold"@,
            OrderType::StopLoss => "stop_loss"@,
        }
    }

    pub fn to_string(&self) -> (r: String)
        ensures
            r@ == self.spec_name(),
    {
        match self {
            OrderType::Buy => String::from_str("buy"),
            OrderType::Sell => String::from_str("sell"),
            OrderType::Hold => String::from_str("hold"),
            OrderType::StopLoss => String::from_str("stop_loss"),
        }
    }
}

/// An order as the execution venue returned it.
#[derive(Clone, Debug)]
pub struct Order {
    pub order_id: String,
    pub symbol: String,
    pub order_type: OrderType,
    pub size: Decimal,
    pub price: Option<Decimal>,
    pub status: String,
}

/// The first position held in `symbol`, by its index.
pub open spec fn spec_find_position(positions: Seq<Position>, symbol: Seq<char>) -> Option<int>
    decreases positions.len(),
{
    if positions.len() == 0 {
        None
    } else if positions[0].symbol@ == symbol {
        Some(0)
    } else {
        match spec_find_position(positions.drop_first(), symbol) {
            Some(i) => Some(i + 1),
            None => None,
        }
    }
}

/// What `spec_find_position` finds is the first match, and it finds one
/// whenever there is any.
pub proof fn lemma_find_position(positions: Seq<Position>, symbol: Seq<char>)
    ensures
        match spec_find_position(positions, symbol) {
            Some(i) => 0 <= i < positions.len() && positions[i].symbol@ == symbol && forall|j: int|
                0 <= j < i ==> positions[j].symbol@ != symbol,
            None => forall|j: int| 0 <= j < positions.len() ==> positions[j].symbol@ != symbol,
        },
    decreases positions.len(),
{
    if positions.len() > 0 && positions[0].symbol@ != symbol {
        let rest = positions.drop_first();
        lemma_find_position(rest, symbol);
        match spec_find_position(rest, symbol) {
            Some(i) => {
                assert forall|j: int| 0 <= j < i + 1 implies positions[j].symbol@ != symbol by {
                    if j > 0 {
                        assert(positions[j] == rest[j - 1]);
                    }
                }
            },
            None => {
                assert forall|j: int| 0 <= j < positions.len() implies positions[j].symbol@
                    != symbol by {
                    if j > 0 {
                        assert(positions[j] == rest[j - 1]);
                    }
                }
            },
        }
    }
}

/// The index of the first position held in `symbol`.
pub fn find_position(positions: &Vec<Position>, symbol: &str) -> (r: Option<usize>)
    ensures
        match r {
            Some(i) => spec_find_position(positions@, symbol@) == Some(i as int),
            None => spec_find_position(positions@, symbol@) is None,
        },
{
    let wanted = symbol.to_string();
    let n: usize = positions.len();
    let mut i: usize = 0;
    while i < n
        invariant
            i <= n,
            n == positions@.len(),
            wanted@ == symbol@,
            forall|j: int| 0 <= j < i ==> positions@[j].symbol@ != symbol@,
        decreases n - i,
    {
        if positions[i].symbol == wanted {
            proof {
                lemma_find_position(positions@, symbol@);
            }
            return Some(i);
        }
        i = i + 1;
    }
    proof {
        lemma_find_position(positions@, symbol@);
    }
    None
}

} // verus!
