//! What the order management actor is told.

use crate::decimal::Decimal;
use crate::oms::account::AccountSnapshot;
use crate::oms::order::OrderId;
use crate::oms::order::Side;
use vstd::prelude::*;

verus! {

/// Why the risk engine pulled the kill switch.
#[derive(Debug, Clone, Copy)]
pub enum KillReason {
    /// The drawdown reached the limit.
    Drawdown { drawdown: Decimal, limit: Decimal },
}

/// One event for the order management actor.
#[derive(Debug, Clone, Copy)]
pub enum OmsEvent {
    /// The strategy sets what it wants to hold.
    SetTarget { qty: Decimal },
    /// The strategy asks for a new order.
    CreateOrder { side: Side, qty: Decimal, price: Decimal },
    /// The venue acknowledged an order.
    OrderAccepted { order_id: OrderId },
    /// The venue refused an order.
    OrderRejected { order_id: OrderId },
    /// The venue filled part or all of an order.
    Fill { order_id: OrderId, qty: Decimal, price: Decimal },
    /// The venue confirmed a cancel.
    CancelConfirmed { order_id: OrderId },
    /// Someone asks for delta.
    GetDelta,
    /// Cancel every live order.
    CancelAll,
    /// Someone asks for all orders and the position.
    GetSnapshot,
    /// Someone asks for the last account snapshot.
    GetAccountSnapshot,
    /// The venue reported the account.
    UpdateAccountSnapshot { snapshot: AccountSnapshot },
    /// Close the position of signed size `qty` with a crossing limit.
    Flatten { qty: Decimal, limit_px: Decimal },
    /// The risk engine's kill: cancel everything, flatten, take no more
    /// orders.
    RiskKill { reason: KillReason, qty: Decimal, limit_px: Decimal },
    /// A heartbeat: delta is computed anew and reported.
    Tick,
}

} // verus!
