use std::sync::Arc;
use trading_engine::config::{
    DingTalkConfig, NotificationConfig, RiskLimits, StrategyParams, TradingConfig,
};
use trading_engine::decimal::Decimal;
use trading_engine::error::Error;
use trading_engine::strategy::ma_cross::Direction;
use trading_engine::strategy::{MACrossStrategy, Strategy};
use trading_engine::types::{Kline, Signal};

fn dec(mantissa: i128, scale: u32) -> Decimal {
    Decimal::new(mantissa, scale).unwrap()
}

fn config(short_window: usize, long_window: usize) -> Arc<TradingConfig> {
    Arc::new(TradingConfig {
        api_key: String::new(),
        api_secret: String::new(),
        exchange: "binance".to_string(),
        symbols: vec!["BTCUSDT".to_string()],
        risk_limits: RiskLimits {
            max_position_size: dec(1000, 0),
            max_drawdown: dec(100, 0),
            stop_loss_rate: dec(5, 2),
        },
        strategy_params: StrategyParams { short_window, long_window },
        notification: NotificationConfig {
            dingtalk: DingTalkConfig { webhook: String::new(), secret: String::new() },
        },
    })
}

fn candles(closes: &[i128]) -> Vec<Kline> {
    let mut out = Vec::new();
    for (i, c) in closes.iter().enumerate() {
        let close = dec(*c, 0);
        out.push(Kline {
            timestamp: 60_000 * i as i64,
            open: close,
            high: close,
            low: close,
            close,
            volume: dec(1, 0),
        });
    }
    out
}

fn strategy(short_window: usize, long_window: usize) -> MACrossStrategy {
    MACrossStrategy::new(config(short_window, long_window)).unwrap()
}

#[test]
fn rising_closes_give_buy() {
    let closes: Vec<i128> = (1..=30).map(|i| 100 + 10 * i).collect();
    let data = candles(&closes);
    assert_eq!(data.len(), 30);
    let signal = strategy(5, 20).generate_signal(&data).unwrap();
    assert_eq!(signal, Signal::Buy);
}

#[test]
fn falling_closes_give_sell() {
    let closes: Vec<i128> = (1..=30).map(|i| 1000 - 10 * i).collect();
    let signal = strategy(5, 20).generate_signal(&candles(&closes)).unwrap();
    assert_eq!(signal, Signal::Sell);
}

#[test]
fn equal_averages_give_hold() {
    let signal = strategy(5, 20).generate_signal(&candles(&[7; 25])).unwrap();
    assert_eq!(signal, Signal::Hold);
    // 2, 4, 1, 3 has short mean (1 + 3) / 2 = 2 and long mean 10 / 4 = 2.5;
    // 3, 1, 2, 2 has short mean 2 and long mean 2.
    let signal = strategy(2, 4).generate_signal(&candles(&[3, 1, 2, 2])).unwrap();
    assert_eq!(signal, Signal::Hold);
    let signal = strategy(2, 4).generate_signal(&candles(&[2, 4, 1, 3])).unwrap();
    assert_eq!(signal, Signal::Sell);
}

#[test]
fn short_history_is_insufficient_data() {
    let s = strategy(5, 20);
    for n in [0usize, 1, 19] {
        let closes: Vec<i128> = (0..n as i128).collect();
        match s.generate_signal(&candles(&closes)) {
            Err(Error::InsufficientData { required, available }) => {
                assert_eq!(required, 20);
                assert_eq!(available, n);
            }
            other => panic!("expected InsufficientData, got {:?}", other),
        }
    }
    assert!(s.generate_signal(&candles(&[1; 20])).is_ok());
}

#[test]
fn only_the_last_candles_count() {
    // the first candle is outside both windows
    let a = strategy(1, 2).generate_signal(&candles(&[1000, 5, 6])).unwrap();
    assert_eq!(a, Signal::Buy);
    let b = strategy(1, 2).generate_signal(&candles(&[0, 6, 5])).unwrap();
    assert_eq!(b, Signal::Sell);
}

#[test]
fn moving_average_is_sum_over_window() {
    let s = strategy(5, 20);
    let closes: Vec<i128> = (1..=30).collect();
    let data = candles(&closes);
    let short = s.calculate_ma(&data, 5).unwrap();
    assert_eq!((short.mantissa(), short.scale()), (28, 0));
    let long = s.calculate_ma(&data, 20).unwrap();
    assert_eq!((long.mantissa(), long.scale()), (2050, 2));
    assert!(s.calculate_ma(&data, 31).is_none());
    assert!(s.calculate_ma(&data, 0).is_none());
}

#[test]
fn a_zero_short_window_fails_the_computation() {
    let s = strategy(0, 2);
    match s.generate_signal(&candles(&[1, 2])) {
        Err(Error::StrategyError(m)) => assert_eq!(m, "MA calculation failed"),
        other => panic!("expected StrategyError, got {:?}", other),
    }
}

#[test]
fn an_average_that_cannot_be_held_fails_the_computation() {
    let max: i128 = 79_228_162_514_264_337_593_543_950_335;
    match strategy(1, 2).generate_signal(&candles(&[max, max])) {
        Err(Error::StrategyError(m)) => assert_eq!(m, "MA calculation failed"),
        other => panic!("expected StrategyError, got {:?}", other),
    }
}

#[test]
fn windows_out_of_order_are_refused() {
    assert!(matches!(MACrossStrategy::new(config(20, 20)), Err(Error::ConfigError(_))));
    assert!(matches!(MACrossStrategy::new(config(21, 20)), Err(Error::ConfigError(_))));
    assert!(MACrossStrategy::new(config(19, 20)).is_ok());
}

#[test]
fn position_size_is_limit_over_price() {
    let s = strategy(5, 20);
    let size = s.calculate_position_size(dec(50, 0)).unwrap();
    assert_eq!((size.mantissa(), size.scale()), (20, 0));
    let size = s.calculate_position_size(dec(25, 1)).unwrap();
    assert_eq!((size.mantissa(), size.scale()), (400, 0));
}

#[test]
fn position_size_refuses_a_price_not_above_zero() {
    let s = strategy(5, 20);
    assert!(matches!(s.calculate_position_size(Decimal::zero()), Err(Error::StrategyError(_))));
    assert!(matches!(s.calculate_position_size(dec(0, 4)), Err(Error::StrategyError(_))));
    assert!(matches!(s.calculate_position_size(dec(-1, 2)), Err(Error::StrategyError(_))));
    assert!(s.calculate_position_size(dec(1, 28)).is_err());
}

#[test]
fn direction_labels_and_entries() {
    assert_eq!(Direction::Long.as_str(), "多头开仓");
    assert_eq!(Direction::Short.as_str(), "空头开仓");
    assert_eq!(Direction::Exit.as_str(), "平仓");
    assert!(Direction::Long.is_entry());
    assert!(Direction::Short.is_entry());
    assert!(!Direction::Exit.is_entry());
}
