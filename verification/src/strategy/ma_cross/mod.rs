//! The moving-average crossover strategy.

mod signal;
mod strategy;

pub use signal::Direction;
pub use strategy::{spec_crossover, spec_moving_average, spec_sum_closes, MACrossStrategy};
