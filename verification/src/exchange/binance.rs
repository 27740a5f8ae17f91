//! Requests to Binance and the reading of its answers.

use vstd::prelude::*;
use vstd::string::StringExecFns;
use vstd::utf8::encode_utf8;
use std::sync::Arc;
use crate::config::TradingConfig;
use crate::crypto_tools::{hmac_sha256, hmac_sha256_bytes, spec_hex};
use crate::decimal::{decimal_text, Decimal};
use crate::text::{i64_to_string, spec_int_text, spec_nat_text, u64_to_string};
use crate::types::{Order, OrderType, Position};

verus! {

/// A request parameter: a name and a value.
pub type Param = (String, String);

/// The names and values of a list of parameters.
pub open spec fn spec_params(params: Seq<Param>) -> Seq<(Seq<char>, Seq<char>)> {
    params.map_values(|p: Param| (p.0@, p.1@))
}

/// A query string: `name=value` for each parameter in order, joined by `&`.
pub open spec fn spec_query(params: Seq<(Seq<char>, Seq<char>)>) -> Seq<char>
    decreases params.len(),
{
    if params.len() == 0 {
        Seq::empty()
    } else if params.len() == 1 {
        params[0].0 + "="@ + params[0].1
    } else {
        spec_query(params.drop_last()) + "&"@ + params.last().0 + "="@ + params.last().1
    }
}

/// The signed query for a list of parameters: a `timestamp` parameter is
/// added at the end, and the lowercase hexadecimal HMAC-SHA256 of the query
/// under the secret follows as `signature`.
pub open spec fn spec_signed_query(
    secret: Seq<char>,
    params: Seq<(Seq<char>, Seq<char>)>,
    timestamp_millis: int,
) -> Seq<char> {
    let query = spec_query(params.push(("timestamp"@, spec_int_text(timestamp_millis))));
    query + "&signature="@ + spec_hex(
        hmac_sha256_bytes(encode_utf8(secret), encode_utf8(query)),
    )
}

/// The parameters of an order: symbol, side, type, quantity and, where one is
/// given, price. Every order goes out as a market order.
pub open spec fn spec_order_params(
    symbol: Seq<char>,
    order_type: OrderType,
    size: Decimal,
    price: Option<Decimal>,
) -> Seq<(Seq<char>, Seq<char>)> {
    let fixed = seq![
        ("symbol"@, symbol),
        ("side"@, order_type.spec_name()),
        ("type"@, "MARKET"@),
        ("quantity"@, decimal_text(size)),
    ];
    match price {
        Some(p) => fixed.push(("price"@, decimal_text(p))),
        None => fixed,
    }
}

/// One line of an account: an asset with its free and its locked amount.
#[derive(Debug)]
pub struct Balance {
    pub asset: String,
    pub free: Decimal,
    pub locked: Decimal,
}

/// The position that stands for a balance: the free amount of the asset,
/// with prices and profit not known and set to zero.
pub open spec fn spec_position_of(balance: Balance) -> Position {
    Position {
        symbol: balance.asset,
        size: balance.free,
        entry_price: Decimal::from_parts(0, 0),
        current_price: Decimal::from_parts(0, 0),
        unrealized_pnl: Decimal::from_parts(0, 0),
    }
}

/// The positions of an account: one for each balance with a free amount above
/// zero, in the order of the account.
pub open spec fn spec_positions_from(balances: Seq<Balance>) -> Seq<Position>
    decreases balances.len(),
{
    if balances.len() == 0 {
        Seq::empty()
    } else if balances.last().free.spec_mantissa() > 0 {
        spec_positions_from(balances.drop_last()).push(spec_position_of(balances.last()))
    } else {
        spec_positions_from(balances.drop_last())
    }
}

/// Writes a list of parameters as a query string.
pub fn build_query(params: &Vec<Param>) -> (r: String)
    ensures
        r@ == spec_query(spec_params(params@)),
{
    let ghost all = spec_params(params@);
    let mut out = String::new();
    let n: usize = params.len();
    let mut i: usize = 0;
    assert(all.subrange(0, 0) =~= Seq::empty());
    while i < n
        invariant
            i <= n,
            n == params@.len(),
            all == spec_params(params@),
            out@ == spec_query(all.subrange(0, i as int)),
        decreases n - i,
    {
        let ghost before = all.subrange(0, i as int);
        let ghost after = all.subrange(0, i + 1);
        assert(after.drop_last() =~= before);
        assert(after.last() == (params@[i as int].0@, params@[i as int].1@));
        if i > 0 {
            out.append("&");
        }
        out.append(params[i].0.as_str());
        out.append("=");
        out.append(params[i].1.as_str());
        assert(out@ =~= spec_query(after));
        i = i + 1;
    }
    assert(all.subrange(0, n as int) =~= all);
    out
}

/// The parameters of an order.
pub fn order_params(symbol: &str, order_type: OrderType, size: Decimal, price: Option<Decimal>) -> (r:
    Vec<Param>)
    ensures
        spec_params(r@) == spec_order_params(symbol@, order_type, size, price),
{
    let mut params: Vec<Param> = Vec::new();
    params.push((String::from_str("symbol"), String::from_str(symbol)));
    params.push((String::from_str("side"), order_type.to_string()));
    params.push((String::from_str("type"), String::from_str("MARKET")));
    params.push((String::from_str("quantity"), size.to_string()));
    match price {
        Some(p) => {
            params.push((String::from_str("price"), p.to_string()));
        },
        None => {},
    }
    assert(spec_params(params@) =~= spec_order_params(symbol@, order_type, size, price));
    params
}

/// The positions that stand for the balances of an account.
pub fn positions_from_balances(balances: &Vec<Balance>) -> (r: Vec<Position>)
    ensures
        r@ == spec_positions_from(balances@),
{
    let mut out: Vec<Position> = Vec::new();
    let n: usize = balances.len();
    let mut i: usize = 0;
    assert(balances@.subrange(0, 0) =~= Seq::empty());
    while i < n
        invariant
            i <= n,
            n == balances@.len(),
            out@ == spec_positions_from(balances@.subrange(0, i as int)),
        decreases n - i,
    {
        assert(balances@.subrange(0, i + 1).drop_last() =~= balances@.subrange(0, i as int));
        assert(balances@.subrange(0, i + 1).last() == balances@[i as int]);
        let b = &balances[i];
        if b.free.is_positive() {
            out.push(
                Position {
                    symbol: b.asset.clone(),
                    size: b.free,
                    entry_price: Decimal::zero(),
                    current_price: Decimal::zero(),
                    unrealized_pnl: Decimal::zero(),
                },
            );
        }
        i = i + 1;
    }
    assert(balances@.subrange(0, n as int) =~= balances@);
    out
}

/// The order that an answer of the venue confirms: the venue gives the
/// number, the symbol and the status, the request the rest.
pub fn order_from_response(
    order_id: u64,
    symbol: String,
    status: String,
    order_type: OrderType,
    size: Decimal,
    price: Option<Decimal>,
) -> (r: Order)
    ensures
        r.order_id@ == spec_nat_text(order_id as nat),
        r.symbol == symbol,
        r.status == status,
        r.order_type == order_type,
        r.size == size,
        r.price == price,
{
    Order { order_id: u64_to_string(order_id), symbol, order_type, size, price, status }
}

pub struct BinanceExchange {
    config: Arc<TradingConfig>,
    base_url: String,
}

impl BinanceExchange {
    pub closed spec fn spec_secret(self) -> Seq<char> {
        self.config.api_secret@
    }

    pub closed spec fn spec_base_url(self) -> Seq<char> {
        self.base_url@
    }

    pub fn new(config: Arc<TradingConfig>) -> (r: BinanceExchange)
        ensures
            r.spec_secret() == config.api_secret@,
            r.spec_base_url() == "https://api.binance.com"@,
    {
        BinanceExchange { config, base_url: String::from_str("https://api.binance.com") }
    }

    /// Stamps and signs a request: the time is added to the parameters, and
    /// the query that is returned ends in the signature.
    pub fn sign_request(&self, params: &mut Vec<Param>, timestamp_millis: i64) -> (r: String)
        ensures
            spec_params(final(params)@) == spec_params(old(params)@).push(
                ("timestamp"@, spec_int_text(timestamp_millis as int)),
            ),
            r@ == spec_signed_query(
                self.spec_secret(),
                spec_params(old(params)@),
                timestamp_millis as int,
            ),
    {
        params.push((String::from_str("timestamp"), i64_to_string(timestamp_millis)));
        assert(spec_params(params@) =~= spec_params(old(params)@).push(
            ("timestamp"@, spec_int_text(timestamp_millis as int)),
        ));
        let query = build_query(params);
        let signature = hmac_sha256(
            self.config.api_secret.as_str().as_bytes(),
            query.as_str().as_bytes(),
        );
        let ghost unsigned = query@;
        let mut out = query;
        out.append("&signature=");
        out.append(signature.as_str());
        assert(out@ =~= unsigned + "&signature="@ + signature@);
        out
    }

    /// The address to post an order to.
    pub fn place_order_url(
        &self,
        symbol: &str,
        order_type: OrderType,
        size: Decimal,
        price: Option<Decimal>,
        timestamp_millis: i64,
    ) -> (r: String)
        ensures
            r@ == self.spec_base_url() + "/api/v3/order?"@ + spec_signed_query(
                self.spec_secret(),
                spec_order_params(symbol@, order_type, size, price),
                timestamp_millis as int,
            ),
    {
        let mut params = order_params(symbol, order_type, size, price);
        let query = self.sign_request(&mut params, timestamp_millis);
        self.base_url.clone().concat("/api/v3/order?").concat(query.as_str())
    }

    /// The address to send the cancellation of an order to.
    pub fn cancel_order_url(&self, order_id: &str, timestamp_millis: i64) -> (r: String)
        ensures
            r@ == self.spec_base_url() + "/api/v3/order?"@ + spec_signed_query(
                self.spec_secret(),
                seq![("orderId"@, order_id@)],
                timestamp_millis as int,
            ),
    {
        let mut params: Vec<Param> = Vec::new();
        params.push((String::from_str("orderId"), String::from_str(order_id)));
        assert(spec_params(params@) =~= seq![("orderId"@, order_id@)]);
        let query = self.sign_request(&mut params, timestamp_millis);
        self.base_url.clone().concat("/api/v3/order?").concat(query.as_str())
    }

    /// The address to ask for the account at, for positions and balances.
    pub fn account_url(&self, timestamp_millis: i64) -> (r: String)
        ensures
            r@ == self.spec_base_url() + "/api/v3/account?"@ + spec_signed_query(
                self.spec_secret(),
                Seq::empty(),
                timestamp_millis as int,
            ),
    {
        let mut params: Vec<Param> = Vec::new();
        assert(spec_params(params@) =~= Seq::empty());
        let query = self.sign_request(&mut params, timestamp_millis);
        self.base_url.clone().concat("/api/v3/account?").concat(query.as_str())
    }
}

} // verus!
