//! The order management actor: one event at a time, in the order of
//! arrival, against the one engine it owns.
//!
//! The actor decides; it does not send. Each event yields what is to go out:
//! commands for the broker and replies to whoever asked.

use crate::broker::types::BrokerCommand;
use crate::decimal::ArithmeticError;
use crate::decimal::Decimal;
use crate::oms::account::AccountSnapshot;
use crate::oms::engine::live_ids;
use crate::oms::engine::EngineView;
use crate::oms::engine::OmsEngine;
use crate::oms::event::OmsEvent;
use crate::oms::order::Order;
use crate::oms::order::OrderId;
use crate::oms::order::OrderState;
use crate::oms::snapshot::OmsSnapshot;
use vstd::prelude::*;

verus! {

/// What goes out after an event.
#[derive(Debug, Clone)]
pub enum ActorOutput {
    /// A command for the broker.
    ToBroker(BrokerCommand),
    /// Delta: the reply to `GetDelta`, and what a `Tick` has to say.
    Delta(Decimal),
    /// The reply to `GetSnapshot`.
    Snapshot(OmsSnapshot),
    /// The reply to `GetAccountSnapshot`: the account last reported, if any
    /// was.
    Account(Option<AccountSnapshot>),
}

/// The actor as plain values.
pub struct ActorView {
    pub engine: EngineView,
    /// The account last reported.
    pub account: Option<AccountSnapshot>,
    /// Whether the risk engine has killed: no order is taken any more.
    pub killed: bool,
}

/// The cancels for a list of orders, one each, in their order.
pub open spec fn cancels(ids: Seq<OrderId>) -> Seq<ActorOutput> {
    ids.map_values(|id: OrderId| ActorOutput::ToBroker(BrokerCommand::Cancel { order_id: id }))
}

impl ActorView {
    /// Whether the actor can take an event. It cannot take what names an
    /// order it does not know, a fill above what is left of a live order or
    /// not above zero, the confirmation of a cancel that was not asked for,
    /// nor, while it still takes orders, an order without a quantity above
    /// zero or with a price below zero.
    pub open spec fn admissible(self, event: OmsEvent) -> bool {
        match event {
            OmsEvent::CreateOrder { qty, price, .. } => self.killed || (qty@ > 0 && price@ >= 0),
            OmsEvent::OrderAccepted { order_id } => self.engine.knows(order_id),
            OmsEvent::OrderRejected { order_id } => self.engine.knows(order_id),
            OmsEvent::Fill { order_id, qty, .. } => self.engine.admits_fill(order_id, qty),
            OmsEvent::CancelConfirmed { order_id } => self.engine.knows(order_id)
                && self.engine.order(order_id).state is CancelPending,
            _ => true,
        }
    }

    /// Whether an event, taken without a failure of the arithmetic, leads
    /// from this state to `next` with `out` going out.
    pub open spec fn steps(self, event: OmsEvent, next: ActorView, out: Seq<ActorOutput>) -> bool {
        match event {
            OmsEvent::SetTarget { qty } => next == (ActorView {
                engine: self.engine.with_target(qty),
                ..self
            }) && out.len() == 0,
            OmsEvent::CreateOrder { side, qty, price } => {
                ||| (next == self && out.len() == 0)
                ||| (!self.killed && exists|id: OrderId|
                    {
                        &&& !self.engine.knows(id)
                        &&& next == (ActorView {
                            engine: self.engine.created(
                                Order {
                                    id,
                                    side,
                                    original_qty: qty,
                                    limit_price: price,
                                    state: OrderState::New,
                                },
                            ),
                            ..self
                        })
                        &&& out == seq![
                            ActorOutput::ToBroker(
                                BrokerCommand::PlaceLimit { order_id: id, side, qty, price },
                            ),
                        ]
                    })
            },
            OmsEvent::OrderAccepted { order_id } => next == (ActorView {
                engine: self.engine.accepted(order_id),
                ..self
            }) && out.len() == 0,
            OmsEvent::OrderRejected { order_id } => next == (ActorView {
                engine: self.engine.rejected(order_id),
                ..self
            }) && out.len() == 0,
            OmsEvent::Fill { order_id, qty, price } => self.engine.filled_with(order_id, qty, price)
                == Some(next.engine) && next == (ActorView { engine: next.engine, ..self })
                && out.len() == 0,
            OmsEvent::CancelConfirmed { order_id } => next == (ActorView {
                engine: self.engine.cancel_confirmed(order_id),
                ..self
            }) && out.len() == 0,
            OmsEvent::GetDelta => next == self && (self.engine.delta() matches Some(d) && out
                == seq![ActorOutput::Delta(d)]),
            OmsEvent::CancelAll => next == (ActorView {
                engine: self.engine.cancelled_all(),
                ..self
            }) && out == cancels(live_ids(self.engine.orders)),
            OmsEvent::GetSnapshot => next == self && out.len() == 1 && (
            out[0] matches ActorOutput::Snapshot(s) && s.orders@.len() == self.engine.orders.len()
                && (forall|i: int|
                0 <= i < s.orders@.len() ==> (#[trigger] s.orders@[i]).shows(self.engine.orders[i]))
                && s.net_position == self.engine.position.net_qty && s.avg_price
                == self.engine.position.avg_price),
            OmsEvent::GetAccountSnapshot => next == self && out == seq![
                ActorOutput::Account(self.account),
            ],
            OmsEvent::UpdateAccountSnapshot { snapshot } => next == (ActorView {
                account: Some(snapshot),
                ..self
            }) && out.len() == 0,
            OmsEvent::Flatten { qty, limit_px } => next == self && out == seq![
                ActorOutput::ToBroker(BrokerCommand::Flatten { qty, limit_px }),
            ],
            OmsEvent::RiskKill { qty, limit_px, .. } => next == (ActorView {
                engine: self.engine.cancelled_all(),
                killed: true,
                ..self
            }) && out == cancels(live_ids(self.engine.orders)).push(
                ActorOutput::ToBroker(BrokerCommand::Flatten { qty, limit_px }),
            ),
            OmsEvent::Tick => next == self && (self.engine.delta() matches Some(d) && out
                == seq![ActorOutput::Delta(d)]),
        }
    }
}

/// The order management actor.
#[derive(Debug)]
pub struct OmsActor {
    engine: OmsEngine,
    account: Option<AccountSnapshot>,
    killed: bool,
}

impl View for OmsActor {
    type V = ActorView;

    closed spec fn view(&self) -> ActorView {
        ActorView { engine: self.engine@, account: self.account, killed: self.killed }
    }
}

impl OmsActor {
    /// The actor's invariant: that of its engine.
    pub closed spec fn wf(&self) -> bool {
        self.engine.wf()
    }

    /// The view of the actor's engine is well formed wherever the actor is.
    pub proof fn lemma_view_wf(&self)
        requires
            self.wf(),
        ensures
            self@.engine.wf(),
    {
        self.engine.lemma_view_wf();
    }

    /// An actor with a fresh engine, no account reported, taking orders.
    pub fn new() -> (r: OmsActor)
        ensures
            r.wf(),
            r@.engine.orders.len() == 0,
            r@.engine.target == Decimal::of(0, 0),
            r@.engine.filled == Decimal::of(0, 0),
            r@.account.is_none(),
            !r@.killed,
    {
        OmsActor { engine: OmsEngine::new(), account: None, killed: false }
    }

    /// Whether the risk engine has killed.
    pub fn killed(&self) -> (b: bool)
        ensures
            b == self@.killed,
    {
        self.killed
    }

    /// The engine, for reading.
    pub fn engine(&self) -> (e: &OmsEngine)
        requires
            self.wf(),
        ensures
            e@ == self@.engine,
            e.wf(),
    {
        &self.engine
    }

    /// Whether the actor can take an event.
    pub fn accepts(&self, event: &OmsEvent) -> (b: bool)
        requires
            self.wf(),
        ensures
            b == self@.admissible(*event),
    {
        match *event {
            OmsEvent::CreateOrder { side: _, qty, price } => self.killed || (qty.is_positive()
                && !price.is_negative()),
            OmsEvent::OrderAccepted { order_id } => self.engine.contains(order_id),
            OmsEvent::OrderRejected { order_id } => self.engine.contains(order_id),
            OmsEvent::Fill { order_id, qty, price: _ } => match self.engine.order(order_id) {
                Some(order) => match order.state {
                    OrderState::New | OrderState::Open { .. } | OrderState::PartiallyFilled {
                        ..
                    } => qty.is_positive() && qty.le(&order.fill_base()),
                    _ => true,
                },
                None => false,
            },
            OmsEvent::CancelConfirmed { order_id } => match self.engine.order(order_id) {
                Some(order) => match order.state {
                    OrderState::CancelPending => true,
                    _ => false,
                },
                None => false,
            },
            _ => true,
        }
    }

    /// Takes one event and returns what is to go out. After a kill no
    /// order is taken. An order is taken unless the identifier drawn for it
    /// is in use, which it cannot be while the registry is empty. Where the
    /// arithmetic fails nothing changes and the result is an error.
    pub fn handle(&mut self, event: OmsEvent) -> (r: Result<Vec<ActorOutput>, ArithmeticError>)
        requires
            old(self).wf(),
            old(self)@.admissible(event),
        ensures
            final(self).wf(),
            match r {
                Ok(out) => old(self)@.steps(event, final(self)@, out@),
                Err(_) => final(self)@ == old(self)@,
            },
            event is Fill ==> (r.is_err() <==> old(self)@.engine.filled_with(
                event->Fill_order_id,
                event->Fill_qty,
                event->Fill_price,
            ).is_none()),
            event is GetDelta || event is Tick ==> (r.is_err() <==> old(self)@.engine.delta().is_none()),
            !(event is Fill || event is GetDelta || event is Tick) ==> r.is_ok(),
            old(self)@.killed ==> final(self)@.killed,
            old(self)@.killed && event is CreateOrder ==> final(self)@ == old(self)@ && (
            r matches Ok(out) && out@.len() == 0),
            !old(self)@.killed && event is CreateOrder && old(self)@.engine.orders.len() == 0 ==> (
            r matches Ok(out) && out@.len() == 1),
    {
        let mut out: Vec<ActorOutput> = Vec::new();
        match event {
            OmsEvent::SetTarget { qty } => {
                self.engine.set_target_position(qty);
            },
            OmsEvent::CreateOrder { side, qty, price } => {
                if !self.killed {
                    match self.engine.create_order(side, qty, price) {
                        Some(order_id) => {
                            out.push(
                                ActorOutput::ToBroker(
                                    BrokerCommand::PlaceLimit { order_id, side, qty, price },
                                ),
                            );
                        },
                        None => {},
                    }
                }
            },
            OmsEvent::OrderAccepted { order_id } => {
                self.engine.on_order_accepted(order_id);
            },
            OmsEvent::OrderRejected { order_id } => {
                self.engine.on_order_rejected(order_id);
            },
            OmsEvent::Fill { order_id, qty, price } => {
                match self.engine.on_fill(order_id, qty, price) {
                    Ok(()) => {},
                    Err(e) => {
                        return Err(e);
                    },
                }
            },
            OmsEvent::CancelConfirmed { order_id } => {
                self.engine.on_cancel_confirmed(order_id);
            },
            OmsEvent::GetDelta | OmsEvent::Tick => {
                match self.engine.delta() {
                    Ok(d) => {
                        out.push(ActorOutput::Delta(d));
                    },
                    Err(e) => {
                        return Err(e);
                    },
                }
            },
            OmsEvent::CancelAll => {
                let ids = self.engine.cancel_all();
                push_cancels(&mut out, &ids);
            },
            OmsEvent::GetSnapshot => {
                out.push(ActorOutput::Snapshot(self.engine.snapshot()));
            },
            OmsEvent::GetAccountSnapshot => {
                out.push(ActorOutput::Account(self.account));
            },
            OmsEvent::UpdateAccountSnapshot { snapshot } => {
                self.account = Some(snapshot);
            },
            OmsEvent::Flatten { qty, limit_px } => {
                out.push(ActorOutput::ToBroker(BrokerCommand::Flatten { qty, limit_px }));
            },
            OmsEvent::RiskKill { reason: _, qty, limit_px } => {
                let ids = self.engine.cancel_all();
                push_cancels(&mut out, &ids);
                out.push(ActorOutput::ToBroker(BrokerCommand::Flatten { qty, limit_px }));
                self.killed = true;
            },
        }
        Ok(out)
    }
}

/// Adds a cancel for each of the orders.
fn push_cancels(out: &mut Vec<ActorOutput>, ids: &Vec<OrderId>)
    ensures
        final(out)@ == old(out)@ + cancels(ids@),
{
    let mut i: usize = 0;
    assert(old(out)@ + cancels(ids@.take(0)) =~= old(out)@);
    while i < ids.len()
        invariant
            i <= ids.len(),
            out@ == old(out)@ + cancels(ids@.take(i as int)),
        decreases ids.len() - i,
    {
        out.push(ActorOutput::ToBroker(BrokerCommand::Cancel { order_id: ids[i] }));
        assert(old(out)@ + cancels(ids@.take(i + 1)) =~= (old(out)@ + cancels(
            ids@.take(i as int),
        )).push(ActorOutput::ToBroker(BrokerCommand::Cancel { order_id: ids@[i as int] })));
        i = i + 1;
    }
    assert(ids@.take(i as int) =~= ids@);
}

} // verus!
