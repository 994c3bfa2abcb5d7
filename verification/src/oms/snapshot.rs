//! What the order management system shows of itself.

use crate::decimal::Decimal;
use crate::oms::order::Order;
use crate::oms::order::OrderId;
use crate::oms::order::OrderState;
use crate::oms::order::Side;
use vstd::prelude::*;

verus! {

/// One order as shown to a reader.
#[derive(Debug, Clone, Copy)]
pub struct OrderView {
    pub id: OrderId,
    pub side: Side,
    pub limit_price: Decimal,
    pub original_qty: Decimal,
    pub remaining_qty: Decimal,
    pub state: OrderState,
}

impl OrderView {
    /// Whether the view shows `order`: its fields as they are, and what
    /// remains of it.
    pub open spec fn shows(self, order: Order) -> bool {
        &&& self.id == order.id
        &&& self.side == order.side
        &&& self.limit_price == order.limit_price
        &&& self.original_qty == order.original_qty
        &&& self.remaining_qty@ == order.remaining_of()
        &&& self.state == order.state
    }

    /// The view of an order.
    pub fn from_order(order: &Order) -> (r: OrderView)
        ensures
            r.shows(*order),
    {
        OrderView {
            id: order.id,
            side: order.side,
            limit_price: order.limit_price,
            original_qty: order.original_qty,
            remaining_qty: order.remaining_qty(),
            state: order.state,
        }
    }
}

/// All orders and the position at one moment.
#[derive(Clone, Debug)]
pub struct OmsSnapshot {
    pub orders: Vec<OrderView>,
    pub net_position: Decimal,
    pub avg_price: Decimal,
}

} // verus!
