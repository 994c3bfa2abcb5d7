//! Strategies: the market maker, its helpers, and two small ones for trials.

pub mod flow;
pub mod mm;
pub mod price_sim;
pub mod pricing;
pub mod quote;
pub mod simple;
