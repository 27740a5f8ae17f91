//! A simulated venue: every order is filled at once, and the account is what
//! it was made with.

use vstd::prelude::*;
use vstd::string::StringExecFns;
use crate::decimal::Decimal;
use crate::types::{Order, OrderType, Position};

verus! {

pub struct TushareExchange {
    balances: Vec<(String, Decimal)>,
    positions: Vec<Position>,
}

impl TushareExchange {
    pub closed spec fn spec_balances(self) -> Seq<(String, Decimal)> {
        self.balances@
    }

    pub closed spec fn spec_positions(self) -> Seq<Position> {
        self.positions@
    }

    /// A venue with no balances and no positions.
    pub fn new() -> (r: TushareExchange)
        ensures
            r.spec_balances() =~= Seq::<(String, Decimal)>::empty(),
            r.spec_positions() =~= Seq::<Position>::empty(),
    {
        TushareExchange { balances: Vec::new(), positions: Vec::new() }
    }

    /// Fills the order as asked.
    pub fn place_order(
        &self,
        symbol: &str,
        order_type: OrderType,
        size: Decimal,
        price: Option<Decimal>,
    ) -> (r: Order)
        ensures
            r.order_id@ == "simulated_order_id"@,
            r.symbol@ == symbol@,
            r.order_type == order_type,
            r.size == size,
            r.price == price,
            r.status@ == "filled"@,
    {
        Order {
            order_id: String::from_str("simulated_order_id"),
            symbol: String::from_str(symbol),
            order_type,
            size,
            price,
            status: String::from_str("filled"),
        }
    }

    /// The positions held.
    pub fn get_positions(&self) -> (r: Vec<Position>)
        ensures
            r@ == self.spec_positions(),
    {
        let mut out: Vec<Position> = Vec::new();
        let n: usize = self.positions.len();
        let mut i: usize = 0;
        while i < n
            invariant
                i <= n,
                n == self.positions@.len(),
                out@ == self.positions@.subrange(0, i as int),
            decreases n - i,
        {
            let p = &self.positions[i];
            out.push(
                Position {
                    symbol: p.symbol.clone(),
                    size: p.size,
                    entry_price: p.entry_price,
                    current_price: p.current_price,
                    unrealized_pnl: p.unrealized_pnl,
                },
            );
            assert(out@ =~= self.positions@.subrange(0, i + 1));
            i = i + 1;
        }
        assert(self.positions@.subrange(0, n as int) =~= self.positions@);
        out
    }

    /// The balances held, asset by asset.
    pub fn get_balance(&self) -> (r: Vec<(String, Decimal)>)
        ensures
            r@ == self.spec_balances(),
    {
        let mut out: Vec<(String, Decimal)> = Vec::new();
        let n: usize = self.balances.len();
        let mut i: usize = 0;
        while i < n
            invariant
                i <= n,
                n == self.balances@.len(),
                out@ == self.balances@.subrange(0, i as int),
            decreases n - i,
        {
            out.push((self.balances[i].0.clone(), self.balances[i].1));
            assert(out@ =~= self.balances@.subrange(0, i + 1));
            i = i + 1;
        }
        assert(self.balances@.subrange(0, n as int) =~= self.balances@);
        out
    }
}

} // verus!
