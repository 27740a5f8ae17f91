use std::sync::Arc;
use trading_engine::config::{
    DingTalkConfig, NotificationConfig, RiskLimits, StrategyParams, TradingConfig,
};
use trading_engine::crypto_tools::{hmac_sha256, hmac_sha256_base64};
use trading_engine::data::tushare::{
    amount, kline_from_row, klines_from_rows, ticker_from_field, DailyRow,
};
use trading_engine::decimal::Decimal;
use trading_engine::error::Error;
use trading_engine::exchange::binance::{
    build_query, order_from_response, order_params, positions_from_balances, Balance,
};
use trading_engine::exchange::{BinanceExchange, TushareExchange};
use trading_engine::notification::dingtalk::DingTalkBot;
use trading_engine::text::{i64_to_string, u64_to_string};
use trading_engine::types::OrderType;

fn dec(mantissa: i128, scale: u32) -> Decimal {
    Decimal::new(mantissa, scale).unwrap()
}

fn config(api_secret: &str) -> Arc<TradingConfig> {
    Arc::new(TradingConfig {
        api_key: String::new(),
        api_secret: api_secret.to_string(),
        exchange: "binance".to_string(),
        symbols: Vec::new(),
        risk_limits: RiskLimits {
            max_position_size: dec(1000, 0),
            max_drawdown: dec(100, 0),
            stop_loss_rate: dec(5, 2),
        },
        strategy_params: StrategyParams { short_window: 5, long_window: 20 },
        notification: NotificationConfig {
            dingtalk: DingTalkConfig { webhook: String::new(), secret: String::new() },
        },
    })
}

fn pair(name: &str, value: &str) -> (String, String) {
    (name.to_string(), value.to_string())
}

#[test]
fn numbers_are_written_in_decimal_digits() {
    assert_eq!(u64_to_string(0), "0");
    assert_eq!(u64_to_string(7), "7");
    assert_eq!(u64_to_string(10), "10");
    assert_eq!(u64_to_string(1234567890), "1234567890");
    assert_eq!(u64_to_string(u64::MAX), "18446744073709551615");
    assert_eq!(i64_to_string(0), "0");
    assert_eq!(i64_to_string(-1), "-1");
    assert_eq!(i64_to_string(1700000000000), "1700000000000");
    assert_eq!(i64_to_string(i64::MAX), "9223372036854775807");
    assert_eq!(i64_to_string(i64::MIN), "-9223372036854775808");
}

#[test]
fn hmac_matches_known_tags() {
    assert_eq!(
        hmac_sha256(b"key", b"The quick brown fox jumps over the lazy dog"),
        "f7bc83f430538424b13298e6aa6fb143ef4d59a14946175997479dbc2d1a3cd8"
    );
    assert_eq!(
        hmac_sha256(b"", b""),
        "b613679a0814d9ec772f95d778c35fc5ff1697c493715653c6c712144292c5ad"
    );
    assert_eq!(
        hmac_sha256_base64(b"abc", b"1700000000000\nabc"),
        "op8PfVzJL3l7ytCWjPLUMemWOtOBySrLOe22d7A7me4="
    );
}

#[test]
fn decimals_are_written_and_read() {
    assert_eq!(dec(150, 2).to_string(), "1.50");
    assert_eq!(dec(-5, 1).to_string(), "-0.5");
    assert_eq!(dec(20, 0).to_string(), "20");
    let d = Decimal::from_str("47.50").unwrap();
    assert_eq!((d.mantissa(), d.scale()), (4750, 2));
    let d = Decimal::from_str("-3").unwrap();
    assert_eq!((d.mantissa(), d.scale()), (-3, 0));
    assert!(matches!(Decimal::from_str("abc"), Err(Error::ParseError(_))));
    assert!(matches!(Decimal::from_str(""), Err(Error::ParseError(_))));
}

#[test]
fn a_query_joins_its_parameters_in_order() {
    assert_eq!(build_query(&Vec::new()), "");
    assert_eq!(build_query(&vec![pair("a", "1")]), "a=1");
    assert_eq!(build_query(&vec![pair("a", "1"), pair("b", ""), pair("c", "x y")]), "a=1&b=&c=x y");
}

#[test]
fn order_parameters_name_a_market_order() {
    let params = order_params("BTCUSDT", OrderType::Buy, dec(5, 1), None);
    assert_eq!(
        params,
        vec![
            pair("symbol", "BTCUSDT"),
            pair("side", "buy"),
            pair("type", "MARKET"),
            pair("quantity", "0.5"),
        ]
    );
    let params = order_params("BTCUSDT", OrderType::StopLoss, dec(20, 0), Some(dec(4750, 2)));
    assert_eq!(params.len(), 5);
    assert_eq!(params[1], pair("side", "stop_loss"));
    assert_eq!(params[4], pair("price", "47.50"));
}

#[test]
fn a_signed_request_carries_time_and_signature() {
    let venue = BinanceExchange::new(config("secret"));
    let mut params = vec![pair("orderId", "42")];
    let signed = venue.sign_request(&mut params, 1700000000000);
    assert_eq!(params, vec![pair("orderId", "42"), pair("timestamp", "1700000000000")]);
    assert_eq!(
        signed,
        "orderId=42&timestamp=1700000000000&signature=d9f447032354d7c228c4662c8b8d2262cd2e0ba261b203998b969663c96b91bd"
    );
}

#[test]
fn addresses_are_built_on_the_base_address() {
    let venue = BinanceExchange::new(config("secret"));
    assert_eq!(
        venue.place_order_url("BTCUSDT", OrderType::Buy, dec(5, 1), None, 1700000000000),
        "https://api.binance.com/api/v3/order?symbol=BTCUSDT&side=buy&type=MARKET&quantity=0.5&timestamp=1700000000000&signature=93684535796b1e2960b406b3dac0adf1ef570f53fa75c15400c10977109a9da6"
    );
    assert_eq!(
        venue.place_order_url(
            "BTCUSDT",
            OrderType::StopLoss,
            dec(20, 0),
            Some(dec(4750, 2)),
            1700000000000
        ),
        "https://api.binance.com/api/v3/order?symbol=BTCUSDT&side=stop_loss&type=MARKET&quantity=20&price=47.50&timestamp=1700000000000&signature=410ba40102ad63fb8e560fc82120347a583a35d2ee1aba5256824024334b060b"
    );
    assert_eq!(
        venue.cancel_order_url("42", 1700000000000),
        "https://api.binance.com/api/v3/order?orderId=42&timestamp=1700000000000&signature=d9f447032354d7c228c4662c8b8d2262cd2e0ba261b203998b969663c96b91bd"
    );
    assert_eq!(
        venue.account_url(1700000000000),
        "https://api.binance.com/api/v3/account?timestamp=1700000000000&signature=d615d05216c634afd48df5e1fc52c0d95b77892f19502e1b619f391bc9d68205"
    );
}

#[test]
fn only_free_balances_become_positions() {
    let balances = vec![
        Balance { asset: "BTC".to_string(), free: dec(15, 1), locked: dec(0, 0) },
        Balance { asset: "ETH".to_string(), free: dec(0, 3), locked: dec(7, 0) },
        Balance { asset: "BNB".to_string(), free: dec(-1, 0), locked: dec(0, 0) },
        Balance { asset: "USDT".to_string(), free: dec(1, 8), locked: dec(0, 0) },
    ];
    let positions = positions_from_balances(&balances);
    assert_eq!(positions.len(), 2);
    assert_eq!(positions[0].symbol, "BTC");
    assert_eq!((positions[0].size.mantissa(), positions[0].size.scale()), (15, 1));
    assert_eq!(positions[0].entry_price.mantissa(), 0);
    assert_eq!(positions[0].current_price.mantissa(), 0);
    assert_eq!(positions[0].unrealized_pnl.mantissa(), 0);
    assert_eq!(positions[1].symbol, "USDT");
    assert!(positions_from_balances(&Vec::new()).is_empty());
}

#[test]
fn an_answer_is_read_into_an_order() {
    let order = order_from_response(
        9001,
        "BTCUSDT".to_string(),
        "FILLED".to_string(),
        OrderType::Buy,
        dec(5, 1),
        None,
    );
    assert_eq!(order.order_id, "9001");
    assert_eq!(order.symbol, "BTCUSDT");
    assert_eq!(order.status, "FILLED");
    assert_eq!(order.order_type, OrderType::Buy);
    assert_eq!(order.size.mantissa(), 5);
    assert!(order.price.is_none());
}

#[test]
fn the_simulated_venue_fills_at_once() {
    let venue = TushareExchange::new();
    let order = venue.place_order("000001.SZ", OrderType::Sell, dec(100, 0), Some(dec(1234, 2)));
    assert_eq!(order.order_id, "simulated_order_id");
    assert_eq!(order.symbol, "000001.SZ");
    assert_eq!(order.order_type, OrderType::Sell);
    assert_eq!(order.size.mantissa(), 100);
    assert_eq!(order.price.unwrap().mantissa(), 1234);
    assert_eq!(order.status, "filled");
    assert!(venue.get_positions().is_empty());
    assert!(venue.get_balance().is_empty());
}

#[test]
fn amounts_default_to_zero() {
    let d = amount(&Some("12.5".to_string()));
    assert_eq!((d.mantissa(), d.scale()), (125, 1));
    assert_eq!(amount(&None).mantissa(), 0);
    assert_eq!(amount(&Some("n/a".to_string())).mantissa(), 0);
}

#[test]
fn a_trade_date_without_an_offset_is_a_parse_failure() {
    let row = DailyRow {
        trade_date: Some("20220104".to_string()),
        open: Some("10".to_string()),
        high: Some("11".to_string()),
        low: Some("9".to_string()),
        close: Some("10.5".to_string()),
        vol: Some("1000".to_string()),
    };
    assert!(matches!(kline_from_row(&row), Err(Error::ParseError(_))));
    assert!(matches!(klines_from_rows(&vec![row]), Err(Error::ParseError(_))));
    let missing = DailyRow {
        trade_date: None,
        open: None,
        high: None,
        low: None,
        close: None,
        vol: None,
    };
    assert!(matches!(kline_from_row(&missing), Err(Error::ParseError(_))));
    assert_eq!(klines_from_rows(&Vec::new()).unwrap().len(), 0);
}

#[test]
fn the_last_price_is_read_or_reported_missing() {
    let price = ticker_from_field(Some("12.34")).unwrap();
    assert_eq!((price.mantissa(), price.scale()), (1234, 2));
    match ticker_from_field(None) {
        Err(Error::ApiError(m)) => assert_eq!(m, "Missing price data"),
        other => panic!("unexpected result {:?}", other),
    }
    assert!(matches!(ticker_from_field(Some("twelve")), Err(Error::ParseError(_))));
}

#[test]
fn the_robot_address_is_signed() {
    let bot = DingTalkBot::new("https://robot.example/send?access_token=t".to_string(), "abc".to_string());
    assert_eq!(bot.generate_signature(1700000000000), "op8PfVzJL3l7ytCWjPLUMemWOtOBySrLOe22d7A7me4=");
    assert_eq!(
        bot.signed_webhook(1700000000000),
        "https://robot.example/send?access_token=t&timestamp=1700000000000&sign=op8PfVzJL3l7ytCWjPLUMemWOtOBySrLOe22d7A7me4="
    );
    assert!(DingTalkBot::text_sent(true).is_ok());
    match DingTalkBot::text_sent(false) {
        Err(Error::UnknownError(m)) => assert_eq!(m, "Failed to send DingTalk message"),
        other => panic!("unexpected result {:?}", other),
    }
    match DingTalkBot::markdown_sent(false) {
        Err(Error::UnknownError(m)) => assert_eq!(m, "Failed to send DingTalk markdown message"),
        other => panic!("unexpected result {:?}", other),
    }
    assert!(matches!(Error::from("plain".to_string()), Error::UnknownError(m) if m == "plain"));
}
