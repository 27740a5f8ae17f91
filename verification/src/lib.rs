//! Decision core of an automated trading loop: exact decimal quantities, a
//! moving-average crossover strategy, a risk gate and the per-symbol pipeline
//! that sequences them. Network work is left to the caller, who performs the
//! actions this crate asks for and reports back what happened.

pub mod config;
pub mod crypto_tools;
pub mod data;
pub mod decimal;
pub mod error;
pub mod exchange;
pub mod notification;
pub mod risk;
pub mod strategy;
pub mod text;
pub mod trading_system;
pub mod types;
