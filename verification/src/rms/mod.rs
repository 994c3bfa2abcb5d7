//! The risk engine: a drawdown monitor with a kill switch that fires once.

pub mod driver;
pub mod engine;
pub mod types;
