//! The configuration the trading loop is started with.

use vstd::prelude::*;
use crate::decimal::{pow10, Decimal};
use crate::error::Error;

verus! {

#[derive(Clone, Debug)]
pub struct TradingConfig {
    pub api_key: String,
    pub api_secret: String,
    pub exchange: String,
    pub symbols: Vec<String>,
    pub risk_limits: RiskLimits,
    pub strategy_params: StrategyParams,
    pub notification: NotificationConfig,
}

#[derive(Clone, Copy, Debug)]
pub struct RiskLimits {
    pub max_position_size: Decimal,
    pub max_drawdown: Decimal,
    pub stop_loss_rate: Decimal,
}

#[derive(Clone, Copy, Debug)]
pub struct StrategyParams {
    pub short_window: usize,
    pub long_window: usize,
}

#[derive(Clone, Debug)]
pub struct NotificationConfig {
    pub dingtalk: DingTalkConfig,
}

#[derive(Clone, Debug)]
pub struct DingTalkConfig {
    pub webhook: String,
    pub secret: String,
}

impl RiskLimits {
    /// The stop-loss rate is a fraction: at least zero and below one.
    pub open spec fn spec_is_valid(self) -> bool {
        0 <= self.stop_loss_rate.spec_mantissa() < pow10(self.stop_loss_rate.spec_scale())
    }

    pub fn is_valid(&self) -> (r: bool)
        ensures
            r == self.spec_is_valid(),
    {
        let zero = Decimal::zero();
        let one = Decimal::one();
        assert(pow10(0) == 1);
        !self.stop_loss_rate.lt(zero) && self.stop_loss_rate.lt(one)
    }
}

impl StrategyParams {
    /// The short window is strictly shorter than the long one.
    pub open spec fn spec_is_valid(self) -> bool {
        self.short_window < self.long_window
    }

    pub fn is_valid(&self) -> (r: bool)
        ensures
            r == self.spec_is_valid(),
    {
        self.short_window < self.long_window
    }
}

impl TradingConfig {
    pub open spec fn spec_is_valid(self) -> bool {
        self.risk_limits.spec_is_valid() && self.strategy_params.spec_is_valid()
    }

    /// Accepts the configuration, or says what is wrong with it. The risk
    /// limits are looked at first.
    pub fn validate(&self) -> (r: Result<(), Error>)
        ensures
            r is Ok <==> self.spec_is_valid(),
            !self.risk_limits.spec_is_valid() ==> (r matches Err(Error::ConfigError(m)) && m@
                == "stop_loss_rate must be at least 0 and below 1"@),
            self.risk_limits.spec_is_valid() && !self.strategy_params.spec_is_valid() ==> (
            r matches Err(Error::ConfigError(m)) && m@
                == "short_window must be below long_window"@),
    {
        if !self.risk_limits.is_valid() {
            Err(Error::config("stop_loss_rate must be at least 0 and below 1"))
        } else if !self.strategy_params.is_valid() {
            Err(Error::config("short_window must be below long_window"))
        } else {
            Ok(())
        }
    }
}

} // verus!
