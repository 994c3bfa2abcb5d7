//! A broker that answers by itself: every order is accepted and filled in
//! two parts, every cancel confirmed.

use crate::broker::types::BrokerCommand;
use crate::decimal::Decimal;
use crate::oms::event::OmsEvent;
use vstd::prelude::*;

verus! {

/// What the simulator answers to a command: to an order its acceptance and
/// two fills, of `0.4` and `0.6` of the quantity, at the order's price; to a
/// cancel its confirmation; to a flatten nothing. `None` where the
/// arithmetic fails.
pub open spec fn sim_spec(cmd: BrokerCommand) -> Option<Seq<OmsEvent>> {
    match cmd {
        BrokerCommand::PlaceLimit { order_id, qty, price, .. } => match (
            qty.times(Decimal::of(4, 1)),
            qty.times(Decimal::of(6, 1)),
        ) {
            (Some(first), Some(second)) => Some(
                seq![
                    OmsEvent::OrderAccepted { order_id },
                    OmsEvent::Fill { order_id, qty: first, price },
                    OmsEvent::Fill { order_id, qty: second, price },
                ],
            ),
            _ => None,
        },
        BrokerCommand::Cancel { order_id } => Some(seq![OmsEvent::CancelConfirmed { order_id }]),
        BrokerCommand::Flatten { .. } => Some(Seq::empty()),
    }
}

/// The events with which the simulator answers a command, in the order in
/// which they are to be sent.
pub fn sim_events(cmd: &BrokerCommand) -> (r: Option<Vec<OmsEvent>>)
    ensures
        match sim_spec(*cmd) {
            Some(events) => r matches Some(v) && v@ == events,
            None => r.is_none(),
        },
{
    let mut out: Vec<OmsEvent> = Vec::new();
    match *cmd {
        BrokerCommand::PlaceLimit { order_id, side: _, qty, price } => {
            let first = qty.checked_mul(Decimal::new(4, 1));
            let second = qty.checked_mul(Decimal::new(6, 1));
            match (first, second) {
                (Some(a), Some(b)) => {
                    out.push(OmsEvent::OrderAccepted { order_id });
                    out.push(OmsEvent::Fill { order_id, qty: a, price });
                    out.push(OmsEvent::Fill { order_id, qty: b, price });
                },
                _ => {
                    return None;
                },
            }
        },
        BrokerCommand::Cancel { order_id } => {
            out.push(OmsEvent::CancelConfirmed { order_id });
        },
        BrokerCommand::Flatten { .. } => {},
    }
    Some(out)
}

} // verus!
