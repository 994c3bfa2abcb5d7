//! Core of a single-venue perpetual-futures trading system: an order
//! management state machine, a market-making quote engine and a drawdown
//! kill switch, all on fixed-precision decimal values.

pub mod decimal;
pub mod exact;
pub mod oms;
pub mod market;
pub mod strategy;
pub mod rms;
pub mod broker;
pub mod tui;
