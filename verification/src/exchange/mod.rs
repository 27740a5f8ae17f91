//! What is computed on either side of a call to an execution venue: the
//! request that goes out, and the values read from what comes back.

pub mod binance;
pub mod tushare;

pub use binance::BinanceExchange;
pub use tushare::TushareExchange;
