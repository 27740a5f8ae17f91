use trading_engine::config::{
    DingTalkConfig, NotificationConfig, RiskLimits, StrategyParams, TradingConfig,
};
use trading_engine::decimal::Decimal;
use trading_engine::error::{Error, Severity};
use trading_engine::types::OrderType;

fn dec(mantissa: i128, scale: u32) -> Decimal {
    Decimal::new(mantissa, scale).unwrap()
}

#[test]
fn messages_carry_their_prefix() {
    assert_eq!(Error::ApiError("x".to_string()).to_string(), "API error: x");
    assert_eq!(Error::IoError("x".to_string()).to_string(), "IO error: x");
    assert_eq!(Error::RequestError("x".to_string()).to_string(), "HTTP request error: x");
    assert_eq!(Error::JsonError("x".to_string()).to_string(), "JSON serialization error: x");
    assert_eq!(Error::RiskError("x".to_string()).to_string(), "Risk check failed: x");
    assert_eq!(Error::ParseError("x".to_string()).to_string(), "Parse failed: x");
    assert_eq!(Error::TimeError("x".to_string()).to_string(), "Time error: x");
    assert_eq!(Error::UnknownError("x".to_string()).to_string(), "Unknown error: x");
    assert_eq!(Error::notification("n").to_string(), "Notification error: n");
    assert_eq!(Error::strategy("s").to_string(), "Strategy error: s");
    assert_eq!(Error::config("c").to_string(), "Configuration error: c");
    let short = Error::InsufficientData { required: 20, available: 3 };
    assert_eq!(short.to_string(), "Insufficient data");
    let open = Error::ProtectiveOrderFailed {
        symbol: "BTCUSDT".to_string(),
        cause: Box::new(Error::ApiError("refused".to_string())),
    };
    assert_eq!(
        open.to_string(),
        "Protective order failed after entry: BTCUSDT: API error: refused"
    );
}

#[test]
fn only_an_unprotected_position_is_critical() {
    let open = Error::ProtectiveOrderFailed {
        symbol: "BTCUSDT".to_string(),
        cause: Box::new(Error::ApiError("refused".to_string())),
    };
    assert_eq!(open.severity(), Severity::Critical);
    assert_eq!(Error::ApiError("x".to_string()).severity(), Severity::Error);
    assert_eq!(Error::RiskError("x".to_string()).severity(), Severity::Error);
    assert_eq!(Error::InsufficientData { required: 2, available: 1 }.severity(), Severity::Error);
}

#[test]
fn order_types_are_named_as_the_venue_names_them() {
    assert_eq!(OrderType::Buy.to_string(), "buy");
    assert_eq!(OrderType::Sell.to_string(), "sell");
    assert_eq!(OrderType::Hold.to_string(), "hold");
    assert_eq!(OrderType::StopLoss.to_string(), "stop_loss");
}

#[test]
fn validation_looks_at_the_rate_and_then_at_the_windows() {
    let mut c = TradingConfig {
        api_key: String::new(),
        api_secret: String::new(),
        exchange: "binance".to_string(),
        symbols: Vec::new(),
        risk_limits: RiskLimits {
            max_position_size: dec(1000, 0),
            max_drawdown: dec(100, 0),
            stop_loss_rate: dec(5, 2),
        },
        strategy_params: StrategyParams { short_window: 5, long_window: 20 },
        notification: NotificationConfig {
            dingtalk: DingTalkConfig { webhook: String::new(), secret: String::new() },
        },
    };
    assert!(c.validate().is_ok());
    c.strategy_params.long_window = 5;
    match c.validate() {
        Err(Error::ConfigError(m)) => assert_eq!(m, "short_window must be below long_window"),
        other => panic!("unexpected result {:?}", other),
    }
    c.risk_limits.stop_loss_rate = dec(10, 1);
    match c.validate() {
        Err(Error::ConfigError(m)) => {
            assert_eq!(m, "stop_loss_rate must be at least 0 and below 1")
        }
        other => panic!("unexpected result {:?}", other),
    }
    assert!(!c.risk_limits.is_valid());
    assert!(!c.strategy_params.is_valid());
}
