//! What the risk engine is set up with and what it keeps.

use crate::decimal::Decimal;
use vstd::prelude::*;

verus! {

/// The limits of the risk engine.
#[derive(Debug, Clone, Copy)]
pub struct RiskConfig {
    /// The drawdown, as a fraction of the starting equity, at which the
    /// kill switch fires; `0.10` is ten percent.
    pub max_drawdown_pct: Decimal,
}

/// What the risk engine keeps between ticks.
#[derive(Debug, Clone, Copy)]
pub struct RiskState {
    /// The equity against which the drawdown is measured.
    pub start_equity: Decimal,
    /// Whether the kill switch has fired.
    pub killed: bool,
}

} // verus!
