//! What the broker is told.

use crate::decimal::Decimal;
use crate::oms::order::OrderId;
use crate::oms::order::Side;
use vstd::prelude::*;

verus! {

/// One command for the broker.
#[derive(Debug, Clone, Copy)]
pub enum BrokerCommand {
    /// Place a limit order.
    PlaceLimit { order_id: OrderId, side: Side, qty: Decimal, price: Decimal },
    /// Cancel an order.
    Cancel { order_id: OrderId },
    /// Close the position of signed size `qty` with a crossing limit.
    Flatten { qty: Decimal, limit_px: Decimal },
}

} // verus!
