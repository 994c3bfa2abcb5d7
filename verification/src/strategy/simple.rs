//! The simplest strategy: whatever delta is, ask for an order of that size
//! at a fixed price.

use crate::decimal::Decimal;
use crate::oms::event::OmsEvent;
use crate::oms::order::Side;
use vstd::prelude::*;

verus! {

/// The events for a delta: none for zero, else a cancel of all that rests
/// and one order at `100` that closes the gap, a buy for a delta above zero
/// and a sell of its magnitude for one below.
pub open spec fn chase_spec(delta: Decimal) -> Seq<OmsEvent> {
    if delta@ == 0 {
        Seq::empty()
    } else if delta@ > 0 {
        seq![
            OmsEvent::CancelAll,
            OmsEvent::CreateOrder { side: Side::Buy, qty: delta, price: Decimal::of(100, 0) },
        ]
    } else {
        seq![
            OmsEvent::CancelAll,
            OmsEvent::CreateOrder {
                side: Side::Sell,
                qty: delta.magnitude(),
                price: Decimal::of(100, 0),
            },
        ]
    }
}

/// The events with which the simple strategy answers a delta.
pub fn chase_delta(delta: Decimal) -> (r: Vec<OmsEvent>)
    ensures
        r@ == chase_spec(delta),
        forall|i: int|
            0 <= i < r@.len() ==> (#[trigger] r@[i] matches OmsEvent::CreateOrder { qty, .. }
                ==> qty@ > 0),
{
    let mut out: Vec<OmsEvent> = Vec::new();
    if delta.is_zero() {
        return out;
    }
    out.push(OmsEvent::CancelAll);
    if delta.is_positive() {
        out.push(OmsEvent::CreateOrder { side: Side::Buy, qty: delta, price: Decimal::new(100, 0) });
    } else {
        out.push(
            OmsEvent::CreateOrder { side: Side::Sell, qty: delta.abs(), price: Decimal::new(100, 0) },
        );
    }
    out
}

} // verus!
