//! The account as the venue reports it.

use crate::decimal::Decimal;
use vstd::prelude::*;

verus! {

/// Equity, margin and position at one moment.
#[derive(Debug, Clone, Copy)]
pub struct AccountSnapshot {
    pub equity: Decimal,
    pub available_margin: Decimal,
    pub used_margin: Decimal,
    pub unrealized_pnl: Decimal,
    pub realized_pnl: Decimal,
    pub net_position: Decimal,
}

impl AccountSnapshot {
    /// An account without funds and without a position.
    pub fn empty() -> (r: AccountSnapshot)
        ensures
            r.equity == Decimal::of(0, 0),
            r.available_margin == Decimal::of(0, 0),
            r.used_margin == Decimal::of(0, 0),
            r.unrealized_pnl == Decimal::of(0, 0),
            r.realized_pnl == Decimal::of(0, 0),
            r.net_position == Decimal::of(0, 0),
    {
        AccountSnapshot {
            equity: Decimal::zero(),
            available_margin: Decimal::zero(),
            used_margin: Decimal::zero(),
            unrealized_pnl: Decimal::zero(),
            realized_pnl: Decimal::zero(),
            net_position: Decimal::zero(),
        }
    }
}

} // verus!
