//! What the trading loop asks of any strategy.

use vstd::prelude::*;
use crate::decimal::Decimal;
use crate::error::Error;
use crate::types::{Kline, Signal};

pub mod ma_cross;

pub use ma_cross::MACrossStrategy;

verus! {

/// A decision function over a history of candles, with a rule for sizing a
/// position. The trading loop works with any implementation.
pub trait Strategy {
    /// The least number of candles a decision needs.
    spec fn spec_min_history(&self) -> nat;

    /// The decision for a history, or `None` where none can be computed.
    spec fn spec_signal(&self, data: Seq<Kline>) -> Option<Signal>;

    /// The size to trade at a price, or `None` where none can be computed.
    spec fn spec_position_size(&self, price: Decimal) -> Option<Decimal>;

    /// Decides on a history. A history that is too short is refused as such
    /// and never answered with a signal.
    fn generate_signal(&self, data: &[Kline]) -> (r: Result<Signal, Error>)
        ensures
            data@.len() < self.spec_min_history() ==> (r matches Err(
                Error::InsufficientData { required, available },
            ) && required == self.spec_min_history() && available == data@.len()),
            r matches Ok(s) ==> self.spec_signal(data@) == Some(s),
            r is Err ==> self.spec_signal(data@) is None,
    ;

    /// Sizes a position. A price that is not above zero is refused.
    fn calculate_position_size(&self, price: Decimal) -> (r: Result<Decimal, Error>)
        ensures
            price.spec_mantissa() <= 0 ==> r is Err,
            r matches Ok(size) ==> self.spec_position_size(price) == Some(size),
            r is Err ==> self.spec_position_size(price) is None,
    ;
}

} // verus!
