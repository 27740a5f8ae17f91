use std::sync::Arc;
use trading_engine::config::{
    DingTalkConfig, NotificationConfig, RiskLimits, StrategyParams, TradingConfig,
};
use trading_engine::decimal::Decimal;
use trading_engine::error::Error;
use trading_engine::risk::RiskManager;
use trading_engine::types::Position;

fn dec(mantissa: i128, scale: u32) -> Decimal {
    Decimal::new(mantissa, scale).unwrap()
}

fn config(max_position_size: Decimal, max_drawdown: Decimal, rate: Decimal) -> Arc<TradingConfig> {
    Arc::new(TradingConfig {
        api_key: String::new(),
        api_secret: String::new(),
        exchange: "binance".to_string(),
        symbols: vec!["BTCUSDT".to_string()],
        risk_limits: RiskLimits { max_position_size, max_drawdown, stop_loss_rate: rate },
        strategy_params: StrategyParams { short_window: 5, long_window: 20 },
        notification: NotificationConfig {
            dingtalk: DingTalkConfig { webhook: String::new(), secret: String::new() },
        },
    })
}

fn manager() -> RiskManager {
    RiskManager::new(config(dec(1000, 0), dec(100, 0), dec(5, 2))).unwrap()
}

fn position(symbol: &str, size: Decimal, price: Decimal, pnl: Decimal) -> Position {
    Position {
        symbol: symbol.to_string(),
        size,
        entry_price: price,
        current_price: price,
        unrealized_pnl: pnl,
    }
}

#[test]
fn stop_loss_is_entry_times_one_minus_rate() {
    let stop = manager().calculate_stop_loss(dec(100, 0)).unwrap();
    assert_eq!((stop.mantissa(), stop.scale()), (9500, 2));
    let stop = manager().calculate_stop_loss(dec(12345, 2)).unwrap();
    assert_eq!((stop.mantissa(), stop.scale()), (1172775, 4));
    let none = RiskManager::new(config(dec(1000, 0), dec(100, 0), Decimal::zero())).unwrap();
    let stop = none.calculate_stop_loss(dec(42, 0)).unwrap();
    assert!(!stop.lt(dec(42, 0)) && !dec(42, 0).lt(stop));
}

#[test]
fn stop_loss_rate_outside_unit_interval_is_refused() {
    for rate in [dec(1, 0), dec(100, 2), dec(15, 1), dec(-1, 2)] {
        let r = RiskManager::new(config(dec(1000, 0), dec(100, 0), rate));
        assert!(matches!(r, Err(Error::ConfigError(_))));
    }
    for rate in [Decimal::zero(), dec(99, 2), dec(1, 28)] {
        assert!(RiskManager::new(config(dec(1000, 0), dec(100, 0), rate)).is_ok());
    }
}

#[test]
fn exposure_at_the_limit_is_admitted_and_above_it_refused() {
    let mut m = manager();
    assert_eq!(m.check_risk("BTCUSDT", dec(10, 0), dec(100, 0)).unwrap(), true);
    assert_eq!(m.check_risk("BTCUSDT", dec(1000001, 5), dec(100, 0)).unwrap(), false);
    m.update_positions(vec![
        position("ETHUSDT", dec(2, 0), dec(150, 0), Decimal::zero()),
        position("BNBUSDT", dec(4, 0), dec(50, 0), Decimal::zero()),
    ]);
    let exposure = m.total_exposure().unwrap();
    assert_eq!((exposure.mantissa(), exposure.scale()), (500, 0));
    assert_eq!(m.check_risk("BTCUSDT", dec(5, 0), dec(100, 0)).unwrap(), true);
    assert_eq!(m.check_risk("BTCUSDT", dec(501, 2), dec(100, 0)).unwrap(), false);
}

#[test]
fn drawdown_beyond_the_ceiling_refuses_whatever_the_exposure() {
    let mut m = manager();
    m.update_positions(vec![
        position("ETHUSDT", dec(1, 0), dec(1, 0), dec(-60, 0)),
        position("BNBUSDT", dec(1, 0), dec(1, 0), dec(-4001, 2)),
    ]);
    let pnl = m.total_pnl().unwrap();
    assert_eq!((pnl.mantissa(), pnl.scale()), (-10001, 2));
    assert_eq!(m.check_risk("BTCUSDT", dec(1, 0), dec(1, 0)).unwrap(), false);
    assert_eq!(m.check_risk("BTCUSDT", Decimal::zero(), Decimal::zero()).unwrap(), false);
    m.update_positions(vec![position("ETHUSDT", dec(1, 0), dec(1, 0), dec(-100, 0))]);
    assert_eq!(m.check_risk("BTCUSDT", dec(1, 0), dec(1, 0)).unwrap(), true);
}

#[test]
fn a_breached_ceiling_refuses_even_when_exposure_cannot_be_computed() {
    let max = dec(79_228_162_514_264_337_593_543_950_335, 0);
    let mut m = manager();
    m.update_positions(vec![position("ETHUSDT", max, max, dec(-101, 0))]);
    assert!(m.total_exposure().is_none());
    assert_eq!(m.check_risk("BTCUSDT", dec(1, 0), dec(1, 0)).unwrap(), false);
    m.update_positions(vec![position("ETHUSDT", max, max, Decimal::zero())]);
    assert!(matches!(m.check_risk("BTCUSDT", dec(1, 0), dec(1, 0)), Err(Error::RiskError(_))));
}

#[test]
fn checking_twice_gives_the_same_answer() {
    let mut m = manager();
    m.update_positions(vec![position("ETHUSDT", dec(3, 0), dec(300, 0), dec(-5, 0))]);
    for (size, price) in [(dec(1, 0), dec(100, 0)), (dec(1, 0), dec(101, 0)), (dec(0, 0), dec(7, 0))] {
        let first = m.check_risk("BTCUSDT", size, price).unwrap();
        let second = m.check_risk("BTCUSDT", size, price).unwrap();
        assert_eq!(first, second);
    }
    assert_eq!(m.positions().len(), 1);
}

#[test]
fn the_snapshot_is_replaced_not_merged() {
    let mut m = manager();
    assert!(m.positions().is_empty());
    m.update_positions(vec![position("ETHUSDT", dec(9, 0), dec(100, 0), Decimal::zero())]);
    assert_eq!(m.check_risk("BTCUSDT", dec(2, 0), dec(100, 0)).unwrap(), false);
    m.update_positions(Vec::new());
    assert_eq!(m.check_risk("BTCUSDT", dec(2, 0), dec(100, 0)).unwrap(), true);
}

#[test]
fn a_symbol_reported_twice_is_held_once() {
    let mut m = manager();
    m.update_positions(vec![
        position("ETHUSDT", dec(1, 0), dec(100, 0), Decimal::zero()),
        position("BNBUSDT", dec(1, 0), dec(50, 0), Decimal::zero()),
        position("ETHUSDT", dec(2, 0), dec(100, 0), Decimal::zero()),
    ]);
    let held = m.positions();
    assert_eq!(held.len(), 2);
    assert_eq!(held[0].symbol, "ETHUSDT");
    assert_eq!(held[0].size.mantissa(), 2);
    assert_eq!(held[1].symbol, "BNBUSDT");
    let exposure = m.total_exposure().unwrap();
    assert_eq!((exposure.mantissa(), exposure.scale()), (250, 0));
}
