//! Fills as the venue reports them.

use crate::decimal::Decimal;
use crate::oms::order::fresh_uuid;
use crate::oms::order::OrderId;
use vstd::prelude::*;

verus! {

/// One fill of an order.
#[derive(Debug, Clone, Copy)]
pub struct Fill {
    pub order_id: OrderId,
    /// The signed quantity: above zero for a buy, below for a sell.
    pub qty: Decimal,
    /// The price at which it was executed.
    pub price: Decimal,
    /// The fill's own identifier: the 128 bits of a UUID.
    pub fill_id: u128,
}

impl Fill {
    /// A fill with the given identifier.
    pub fn with_id(fill_id: u128, order_id: OrderId, qty: Decimal, price: Decimal) -> (r: Fill)
        ensures
            r == (Fill { order_id, qty, price, fill_id }),
    {
        Fill { order_id, qty, price, fill_id }
    }

    /// A fill under a freshly drawn identifier.
    pub fn new(order_id: OrderId, qty: Decimal, price: Decimal) -> (r: Fill)
        ensures
            r == (Fill { order_id, qty, price, fill_id: r.fill_id }),
    {
        Fill::with_id(fresh_uuid(), order_id, qty, price)
    }
}

} // verus!
