//! Buy when the short average of closing prices is above the long one, sell
//! when it is below, hold when the two are equal.

use vstd::prelude::*;
use std::sync::Arc;
use crate::config::TradingConfig;
use crate::decimal::{checked_quotient, checked_sum, Decimal};
use crate::error::Error;
use crate::strategy::Strategy;
use crate::types::{Kline, Signal};

verus! {

/// The closing prices of `s` added up from the first candle to the last,
/// starting at zero; `None` as soon as one addition cannot be held.
pub open spec fn spec_sum_closes(s: Seq<Kline>) -> Option<Decimal>
    decreases s.len(),
{
    if s.len() == 0 {
        Some(Decimal::from_parts(0, 0))
    } else {
        match spec_sum_closes(s.drop_last()) {
            Some(acc) => checked_sum(acc, s.last().close),
            None => None,
        }
    }
}

/// The mean closing price of the last `window` candles of `data`: their sum
/// divided by their number. `None` when there are fewer candles than that, or
/// when the sum or the quotient cannot be held.
pub open spec fn spec_moving_average(data: Seq<Kline>, window: nat) -> Option<Decimal> {
    if data.len() < window {
        None
    } else {
        match spec_sum_closes(data.subrange(data.len() - window, data.len() as int)) {
            Some(sum) => checked_quotient(sum, Decimal::from_parts(window as int, 0)),
            None => None,
        }
    }
}

/// The signal for a short and a long average: the order of the two numbers
/// decides, and only exact equality holds.
pub open spec fn spec_crossover(short: Decimal, long: Decimal) -> Signal {
    if long.spec_lt(short) {
        Signal::Buy
    } else if short.spec_lt(long) {
        Signal::Sell
    } else {
        Signal::Hold
    }
}

/// Once a sum has failed, adding more candles does not mend it.
proof fn lemma_sum_stays_none(s: Seq<Kline>, k: int)
    requires
        0 <= k <= s.len(),
        spec_sum_closes(s.subrange(0, k)) is None,
    ensures
        spec_sum_closes(s) is None,
    decreases s.len() - k,
{
    if k < s.len() {
        let next = s.subrange(0, k + 1);
        assert(next.drop_last() =~= s.subrange(0, k));
        lemma_sum_stays_none(s, k + 1);
    } else {
        assert(s.subrange(0, k) =~= s);
    }
}

pub struct MACrossStrategy {
    config: Arc<TradingConfig>,
}

impl MACrossStrategy {
    /// The short window is strictly shorter than the long one.
    #[verifier::type_invariant]
    pub closed spec fn wf(self) -> bool {
        self.config.strategy_params.spec_is_valid()
    }

    /// The configuration this strategy was made with.
    pub closed spec fn spec_config(self) -> TradingConfig {
        *self.config
    }

    /// A strategy for a configuration; refused when the short window is not
    /// strictly shorter than the long one.
    pub fn new(config: Arc<TradingConfig>) -> (r: Result<MACrossStrategy, Error>)
        ensures
            r is Ok <==> config.strategy_params.spec_is_valid(),
            r matches Ok(s) ==> s.spec_config() == *config,
            r matches Err(e) ==> e is ConfigError,
    {
        if config.strategy_params.is_valid() {
            Ok(MACrossStrategy { config })
        } else {
            Err(Error::config("short_window must be below long_window"))
        }
    }

    /// The mean closing price of the last `window_size` candles.
    pub fn calculate_ma(&self, data: &[Kline], window_size: usize) -> (r: Option<Decimal>)
        ensures
            r == spec_moving_average(data@, window_size as nat),
    {
        let n: usize = data.len();
        if n < window_size {
            return None;
        }
        let start: usize = n - window_size;
        let ghost tail = data@.subrange(start as int, n as int);
        let mut acc = Decimal::zero();
        let mut i: usize = start;
        assert(tail.subrange(0, 0) =~= Seq::<Kline>::empty());
        while i < n
            invariant
                start <= i <= n,
                n == data@.len(),
                start == n - window_size,
                tail == data@.subrange(start as int, n as int),
                spec_sum_closes(tail.subrange(0, i - start)) == Some(acc),
            decreases n - i,
        {
            let ghost before = tail.subrange(0, i - start);
            let ghost after = tail.subrange(0, i + 1 - start);
            assert(after.drop_last() =~= before);
            assert(after.last() == data@[i as int]);
            assert(spec_sum_closes(after) == checked_sum(acc, data@[i as int].close));
            match acc.checked_add(data[i].close) {
                Some(next) => {
                    acc = next;
                },
                None => {
                    proof {
                        lemma_sum_stays_none(tail, i + 1 - start);
                    }
                    return None;
                },
            }
            i = i + 1;
        }
        assert(tail.subrange(0, n - start) =~= tail);
        acc.checked_div(Decimal::from_usize(window_size))
    }
}

impl MACrossStrategy {
    /// A history shorter than the long window has no signal.
    pub proof fn law_short_history_has_no_signal(self, data: Seq<Kline>)
        requires
            data.len() < self.spec_config().strategy_params.long_window,
        ensures
            self.spec_signal(data) is None,
    {
    }

    /// The order of the two averages decides the signal: a short average
    /// strictly above the long one gives `Buy`, one strictly below gives
    /// `Sell`, and two averages that are the same number give `Hold`.
    pub proof fn law_crossover_signal(self, data: Seq<Kline>, short: Decimal, long: Decimal)
        requires
            data.len() >= self.spec_config().strategy_params.long_window,
            spec_moving_average(data, self.spec_config().strategy_params.short_window as nat)
                == Some(short),
            spec_moving_average(data, self.spec_config().strategy_params.long_window as nat)
                == Some(long),
        ensures
            long.spec_lt(short) ==> self.spec_signal(data) == Some(Signal::Buy),
            short.spec_lt(long) ==> self.spec_signal(data) == Some(Signal::Sell),
            short.same_value(long) ==> self.spec_signal(data) == Some(Signal::Hold),
    {
    }
}

impl Strategy for MACrossStrategy {
    open spec fn spec_min_history(&self) -> nat {
        self.spec_config().strategy_params.long_window as nat
    }

    open spec fn spec_signal(&self, data: Seq<Kline>) -> Option<Signal> {
        let params = self.spec_config().strategy_params;
        if data.len() < params.long_window {
            None
        } else {
            match (
                spec_moving_average(data, params.short_window as nat),
                spec_moving_average(data, params.long_window as nat),
            ) {
                (Some(short), Some(long)) => Some(spec_crossover(short, long)),
                _ => None,
            }
        }
    }

    open spec fn spec_position_size(&self, price: Decimal) -> Option<Decimal> {
        if price.spec_mantissa() <= 0 {
            None
        } else {
            checked_quotient(self.spec_config().risk_limits.max_position_size, price)
        }
    }

    /// Compares the two averages. Fails with `InsufficientData` on fewer
    /// candles than the long window, and with `StrategyError` when an average
    /// cannot be computed.
    fn generate_signal(&self, data: &[Kline]) -> (r: Result<Signal, Error>)
        ensures
            data@.len() >= self.spec_min_history() && self.spec_signal(data@) is None ==> (
            r matches Err(Error::StrategyError(m)) && m@ == "MA calculation failed"@),
    {
        let long_window: usize = self.config.strategy_params.long_window;
        let short_window: usize = self.config.strategy_params.short_window;
        if data.len() < long_window {
            return Err(Error::InsufficientData { required: long_window, available: data.len() });
        }
        let short_ma = self.calculate_ma(data, short_window);
        let long_ma = self.calculate_ma(data, long_window);
        match (short_ma, long_ma) {
            (Some(short), Some(long)) => {
                if short.gt(long) {
                    Ok(Signal::Buy)
                } else if short.lt(long) {
                    Ok(Signal::Sell)
                } else {
                    Ok(Signal::Hold)
                }
            },
            _ => Err(Error::strategy("MA calculation failed")),
        }
    }

    /// The largest position the limits allow, in units at the given price.
    /// Fails with `StrategyError` for a price that is not above zero, before
    /// any division, and when the quotient cannot be held.
    fn calculate_position_size(&self, price: Decimal) -> (r: Result<Decimal, Error>)
        ensures
            r matches Err(e) ==> e is StrategyError,
    {
        if !price.is_positive() {
            return Err(Error::strategy("price must be above zero"));
        }
        match self.config.risk_limits.max_position_size.checked_div(price) {
            Some(size) => Ok(size),
            None => Err(Error::strategy("position size cannot be computed")),
        }
    }
}

} // verus!
