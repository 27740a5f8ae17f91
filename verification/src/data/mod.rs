//! What is read from the answers of a market data source.

pub mod tushare;
