//! The order management engine: the registry of orders, the position and
//! the reconciliation state, kept in step.
//!
//! After every call the open exposure that the reconciliation state holds is
//! the signed remainder of each live order in the registry, in the order in
//! which the orders were created.

use crate::decimal::difference_is_exact;
use crate::decimal::sum_is_exact;
use crate::decimal::ArithmeticError;
use crate::decimal::Decimal;
use crate::oms::order::Order;
use crate::oms::order::OrderId;
use crate::oms::order::OrderState;
use crate::oms::order::Side;
use crate::oms::position::Position;
use crate::oms::reconcile::total_units;
use crate::oms::reconcile::CoreView;
use crate::oms::reconcile::OmsCore;
use crate::oms::reconcile::Quantity;
use crate::oms::snapshot::OmsSnapshot;
use crate::oms::snapshot::OrderView;
use vstd::prelude::*;

verus! {

/// The signed remainder of each live order, in registry order.
pub open spec fn exposures(orders: Seq<Order>) -> Seq<Decimal>
    decreases orders.len(),
{
    if orders.len() == 0 {
        Seq::empty()
    } else if orders.last().is_live() {
        exposures(orders.drop_last()).push(
            orders.last().side.signed_spec(orders.last().fillable()),
        )
    } else {
        exposures(orders.drop_last())
    }
}

/// The exact sum of the signed remainders of the live orders, in units of
/// `10^-28`.
pub open spec fn live_units(orders: Seq<Order>) -> int
    decreases orders.len(),
{
    if orders.len() == 0 {
        0
    } else {
        live_units(orders.drop_last()) + orders.last().signed_remaining_of()
    }
}

/// The identifiers of the live orders, in registry order.
pub open spec fn live_ids(orders: Seq<Order>) -> Seq<OrderId>
    decreases orders.len(),
{
    if orders.len() == 0 {
        Seq::empty()
    } else if orders.last().is_live() {
        live_ids(orders.drop_last()).push(orders.last().id)
    } else {
        live_ids(orders.drop_last())
    }
}

/// The registry with a cancel on its way for every live order.
pub open spec fn all_cancelled(orders: Seq<Order>) -> Seq<Order> {
    orders.map_values(
        |o: Order|
            if o.is_live() {
                o.cancel_requested()
            } else {
                o
            },
    )
}

/// The place of the first order with identifier `id`, or the length of the
/// registry where there is none.
pub open spec fn place_of(orders: Seq<Order>, id: OrderId) -> int
    decreases orders.len(),
{
    if orders.len() == 0 {
        0
    } else if orders[0].id == id {
        0
    } else {
        1 + place_of(orders.drop_first(), id)
    }
}

/// The place of an identifier is the one before which no order carries it
/// and at which the registry ends or an order carries it.
pub proof fn lemma_place_of(orders: Seq<Order>, id: OrderId, i: int)
    requires
        0 <= i <= orders.len(),
        forall|j: int| 0 <= j < i ==> orders[j].id != id,
        i == orders.len() || orders[i].id == id,
    ensures
        place_of(orders, id) == i,
    decreases i,
{
    if i > 0 {
        let rest = orders.drop_first();
        assert forall|j: int| 0 <= j < i - 1 implies rest[j].id != id by {
            assert(rest[j] == orders[j + 1]);
        }
        assert(i - 1 == rest.len() || rest[i - 1] == orders[i]);
        lemma_place_of(rest, id, i - 1);
    }
}

/// The place of an identifier lies within the registry or at its end, no
/// order before it carries the identifier, and the order at it does.
pub proof fn lemma_place_of_found(orders: Seq<Order>, id: OrderId)
    ensures
        0 <= place_of(orders, id) <= orders.len(),
        forall|j: int| 0 <= j < place_of(orders, id) ==> orders[j].id != id,
        place_of(orders, id) < orders.len() ==> orders[place_of(orders, id)].id == id,
    decreases orders.len(),
{
    if orders.len() > 0 && orders[0].id != id {
        let rest = orders.drop_first();
        lemma_place_of_found(rest, id);
        assert forall|j: int| 0 <= j < place_of(orders, id) implies orders[j].id != id by {
            if j > 0 {
                assert(rest[j - 1] == orders[j]);
            }
        }
        if place_of(orders, id) < orders.len() {
            assert(rest[place_of(rest, id)] == orders[place_of(orders, id)]);
        }
    }
}

/// The exposures of well-formed orders add up to the signed remainders of
/// the live orders.
pub proof fn lemma_exposure_units(orders: Seq<Order>)
    requires
        forall|i: int| 0 <= i < orders.len() ==> orders[i].wf(),
    ensures
        total_units(exposures(orders)) == live_units(orders),
    decreases orders.len(),
{
    if orders.len() > 0 {
        let rest = orders.drop_last();
        let last = orders.last();
        assert forall|i: int| 0 <= i < rest.len() implies rest[i].wf() by {
            assert(rest[i] == orders[i]);
        }
        lemma_exposure_units(rest);
        if last.is_live() {
            let signed = last.side.signed_spec(last.fillable());
            assert(exposures(orders).drop_last() =~= exposures(rest));
            assert(exposures(orders).last() == signed);
            last.fillable().lemma_negated();
            assert(signed@ == last.signed_remaining_of()) by {
                if last.side is Sell {
                    assert(-1 * last.fillable()@ == -last.fillable()@);
                } else {
                    assert(1 * last.fillable()@ == last.fillable()@);
                }
            }
        }
    }
}

/// Putting another order in a place of the registry changes the signed
/// remainders of the live orders by the difference of the two.
pub proof fn lemma_live_units_update(orders: Seq<Order>, i: int, order: Order)
    requires
        0 <= i < orders.len(),
    ensures
        live_units(orders.update(i, order)) == live_units(orders)
            - orders[i].signed_remaining_of() + order.signed_remaining_of(),
    decreases orders.len(),
{
    let next = orders.update(i, order);
    if i == orders.len() - 1 {
        assert(next.drop_last() =~= orders.drop_last());
    } else {
        assert(next.drop_last() =~= orders.drop_last().update(i, order));
        assert(next.last() == orders.last());
        lemma_live_units_update(orders.drop_last(), i, order);
    }
}

/// The engine as plain values.
pub struct EngineView {
    /// What the strategy wants to hold.
    pub target: Decimal,
    /// What has been filled, signed and summed.
    pub filled: Decimal,
    /// Every order ever created, oldest first.
    pub orders: Seq<Order>,
    /// The position.
    pub position: Position,
}

impl EngineView {
    /// The engine's invariant: every order is well formed, no two orders
    /// share an identifier, and the position is well formed.
    pub open spec fn wf(self) -> bool {
        &&& forall|i: int| 0 <= i < self.orders.len() ==> (#[trigger] self.orders[i]).wf()
        &&& forall|i: int, j: int|
            0 <= i < j < self.orders.len() ==> (#[trigger] self.orders[i]).id != (
            #[trigger] self.orders[j]).id
        &&& self.position.wf()
    }

    /// The reconciliation state: target, filled, and the exposures of the
    /// registry.
    pub open spec fn reconciliation(self) -> CoreView {
        CoreView { target: self.target, filled: self.filled, open: exposures(self.orders) }
    }

    /// `target - (filled + open)`, each step as the decimal arithmetic
    /// computes it.
    pub open spec fn delta(self) -> Option<Decimal> {
        self.reconciliation().delta()
    }

    /// Whether an order with identifier `id` is in the registry.
    pub open spec fn knows(self, id: OrderId) -> bool {
        place_of(self.orders, id) < self.orders.len()
    }

    /// The order with identifier `id`.
    pub open spec fn order(self, id: OrderId) -> Order {
        self.orders[place_of(self.orders, id)]
    }

    /// The engine with another target.
    pub open spec fn with_target(self, qty: Decimal) -> EngineView {
        EngineView { target: qty, ..self }
    }

    /// The engine with one more order.
    pub open spec fn created(self, order: Order) -> EngineView {
        EngineView { orders: self.orders.push(order), ..self }
    }

    /// The engine with `order` in the place of the order with identifier
    /// `id`.
    pub open spec fn replaced(self, id: OrderId, order: Order) -> EngineView {
        EngineView { orders: self.orders.update(place_of(self.orders, id), order), ..self }
    }

    /// The engine after the venue acknowledged order `id`.
    pub open spec fn accepted(self, id: OrderId) -> EngineView {
        self.replaced(id, self.order(id).accepted())
    }

    /// The engine after the venue refused order `id`.
    pub open spec fn rejected(self, id: OrderId) -> EngineView {
        self.replaced(id, self.order(id).rejected())
    }

    /// The engine after a cancel was sent for order `id`.
    pub open spec fn cancel_requested(self, id: OrderId) -> EngineView {
        self.replaced(id, self.order(id).cancel_requested())
    }

    /// The engine after the venue confirmed the cancel of order `id`.
    pub open spec fn cancel_confirmed(self, id: OrderId) -> EngineView {
        self.replaced(id, self.order(id).cancel_confirmed())
    }

    /// The engine after a cancel was sent for every live order.
    pub open spec fn cancelled_all(self) -> EngineView {
        EngineView { orders: all_cancelled(self.orders), ..self }
    }

    /// The engine after a fill of `qty` at `price` on order `id`. Where the
    /// order no longer takes fills the fill is dropped and nothing changes.
    /// Else the order, the position and the filled quantity take it; `None`
    /// where a step of the decimal arithmetic fails.
    pub open spec fn filled_with(self, id: OrderId, qty: Decimal, price: Decimal) -> Option<
        EngineView,
    > {
        let order = self.order(id);
        let signed = order.side.signed_spec(qty);
        if !order.takes_fills() {
            Some(self)
        } else {
            match (
                order.after_fill(qty),
                self.position.after_fill(signed, price),
                self.filled.plus(signed),
            ) {
                (Ok(o), Some(position), Some(filled)) => Some(
                    EngineView { filled, position, ..self.replaced(id, o) },
                ),
                _ => None,
            }
        }
    }

    /// Whether a fill of `qty` on order `id` is one the engine can take: the
    /// order is known, and where it still takes fills the quantity is above
    /// zero and at most what is left of it.
    pub open spec fn admits_fill(self, id: OrderId, qty: Decimal) -> bool {
        &&& self.knows(id)
        &&& self.order(id).takes_fills() ==> 0 < qty@ <= self.order(id).fillable()@
    }

    /// Replacing a known order by a well-formed one with the same identifier
    /// keeps the engine well formed.
    pub proof fn lemma_replaced_wf(self, id: OrderId, order: Order)
        requires
            self.wf(),
            self.knows(id),
            order.wf(),
            order.id == id,
        ensures
            self.replaced(id, order).wf(),
            self.replaced(id, order).knows(id),
            self.replaced(id, order).order(id) == order,
            place_of(self.replaced(id, order).orders, id) == place_of(self.orders, id),
    {
        let i = place_of(self.orders, id);
        lemma_place_of_found(self.orders, id);
        let next = self.replaced(id, order);
        assert forall|k: int| 0 <= k < next.orders.len() implies (#[trigger] next.orders[k]).wf() by {
            if k != i {
                assert(next.orders[k] == self.orders[k]);
            }
        }
        assert forall|a: int, b: int| 0 <= a < b < next.orders.len() implies (
        #[trigger] next.orders[a]).id != (#[trigger] next.orders[b]).id by {
            assert(next.orders[a].id == self.orders[a].id);
            assert(next.orders[b].id == self.orders[b].id);
        }
        assert forall|j: int| 0 <= j < i implies next.orders[j].id != id by {
            assert(next.orders[j] == self.orders[j]);
        }
        lemma_place_of(next.orders, id, i);
    }

    /// Reconciliation: where the arithmetic of delta is exact, delta is the
    /// target, less what has been filled, less the signed remainders of the
    /// live orders.
    pub proof fn lemma_delta_reconciles(self)
        requires
            self.wf(),
            self.reconciliation().reconciles_exactly(),
        ensures
            self.delta() matches Some(d) && d@ == self.target@ - self.filled@ - live_units(
                self.orders,
            ),
    {
        self.reconciliation().lemma_delta_reconciles();
        lemma_exposure_units(self.orders);
    }

    /// A cancelled order leaves no trace in delta: create an order under an
    /// unused identifier, have it acknowledged, request its cancel and have
    /// the cancel confirmed, and delta is what it was before the order was
    /// created.
    pub proof fn lemma_cancel_round_trip(self, order: Order)
        requires
            order.state is New,
            !self.knows(order.id),
        ensures
            self.created(order).accepted(order.id).cancel_requested(order.id).cancel_confirmed(
                order.id,
            ).delta() == self.delta(),
    {
        let id = order.id;
        let n = self.orders.len() as int;
        lemma_place_of_found(self.orders, id);
        let e1 = self.created(order);
        assert forall|j: int| 0 <= j < n implies e1.orders[j].id != id by {
            assert(e1.orders[j] == self.orders[j]);
        }
        lemma_place_of(e1.orders, id, n);
        let e2 = e1.accepted(id);
        assert forall|j: int| 0 <= j < n implies e2.orders[j].id != id by {
            assert(e2.orders[j] == self.orders[j]);
        }
        lemma_place_of(e2.orders, id, n);
        let e3 = e2.cancel_requested(id);
        assert forall|j: int| 0 <= j < n implies e3.orders[j].id != id by {
            assert(e3.orders[j] == self.orders[j]);
        }
        lemma_place_of(e3.orders, id, n);
        let e4 = e3.cancel_confirmed(id);
        assert(e4.orders.drop_last() =~= self.orders);
        assert(!e4.orders.last().is_live());
        assert(exposures(e4.orders) == exposures(self.orders));
    }

    /// A full fill moves delta by the fill: create an order under an unused
    /// identifier, have it acknowledged and filled in full, and, where the
    /// arithmetic is exact, delta is what it was before the order was
    /// created, less the signed quantity of the fill. It is therefore never
    /// what it was before.
    pub proof fn lemma_full_fill_moves_delta(self, order: Order, price: Decimal)
        requires
            self.wf(),
            order.wf(),
            order.state is New,
            !self.knows(order.id),
            self.reconciliation().reconciles_exactly(),
            self.created(order).accepted(order.id).filled_with(
                order.id,
                order.original_qty,
                price,
            ) matches Some(after) && after.reconciliation().reconciles_exactly(),
            sum_is_exact(self.filled, order.side.signed_spec(order.original_qty)),
            difference_is_exact(order.original_qty, order.original_qty),
        ensures
            ({
                let after = self.created(order).accepted(order.id).filled_with(
                    order.id,
                    order.original_qty,
                    price,
                ).unwrap();
                let fill = order.side.sign_of() * order.original_qty@;
                &&& after.delta().unwrap()@ == self.delta().unwrap()@ - fill
                &&& after.delta().unwrap()@ != self.delta().unwrap()@
            }),
    {
        let id = order.id;
        let n = self.orders.len() as int;
        lemma_place_of_found(self.orders, id);
        let e1 = self.created(order);
        assert forall|j: int| 0 <= j < n implies e1.orders[j].id != id by {
            assert(e1.orders[j] == self.orders[j]);
        }
        lemma_place_of(e1.orders, id, n);
        let e2 = e1.accepted(id);
        assert forall|j: int| 0 <= j < n implies e2.orders[j].id != id by {
            assert(e2.orders[j] == self.orders[j]);
        }
        lemma_place_of(e2.orders, id, n);
        let after = e2.filled_with(id, order.original_qty, price).unwrap();
        let open = e2.order(id);
        assert(open == order.accepted());
        let left = open.fillable().minus(order.original_qty).unwrap();
        assert(left@ == 0);
        assert(after.orders.drop_last() =~= self.orders);
        assert(after.orders.last().state is Filled);
        assert(exposures(after.orders) == exposures(self.orders));
        self.lemma_delta_reconciles_units();
        after.reconciliation().lemma_delta_reconciles();
        order.original_qty.lemma_negated();
        let signed = order.side.signed_spec(order.original_qty);
        assert(signed@ == order.side.sign_of() * order.original_qty@) by {
            if order.side is Sell {
                assert(-1 * order.original_qty@ == -order.original_qty@);
            } else {
                assert(1 * order.original_qty@ == order.original_qty@);
            }
        }
    }

    /// A fill on a live order leaves delta as it is: where the arithmetic
    /// is exact, what the fill adds to the filled quantity it takes off the
    /// order's remainder.
    pub proof fn lemma_fill_keeps_delta(self, id: OrderId, qty: Decimal, price: Decimal)
        requires
            self.wf(),
            self.knows(id),
            self.order(id).is_live(),
            0 < qty@ <= self.order(id).fillable()@,
            qty.in_bounds(),
            self.reconciliation().reconciles_exactly(),
            self.filled_with(id, qty, price) matches Some(after)
                && after.reconciliation().reconciles_exactly(),
            sum_is_exact(self.filled, self.order(id).side.signed_spec(qty)),
            difference_is_exact(self.order(id).fillable(), qty),
        ensures
            self.filled_with(id, qty, price).unwrap().delta().unwrap()@ == self.delta().unwrap()@,
    {
        let order = self.order(id);
        let i = place_of(self.orders, id);
        lemma_place_of_found(self.orders, id);
        let after = self.filled_with(id, qty, price).unwrap();
        let filled_order = order.after_fill(qty)->Ok_0;
        self.lemma_replaced_wf(id, filled_order);
        assert(after.orders == self.replaced(id, filled_order).orders);
        lemma_live_units_update(self.orders, i, filled_order);
        lemma_exposure_units(self.orders);
        lemma_exposure_units(after.orders);
        self.lemma_delta_reconciles_units();
        after.lemma_delta_reconciles_units();
        qty.lemma_negated();
        let signed = order.side.signed_spec(qty);
        let left = order.fillable().minus(qty).unwrap();
        assert(left@ == order.fillable()@ - qty@);
        assert(filled_order == order.with_remaining(left));
        let sign = order.side.sign_of();
        assert(signed@ == sign * qty@) by {
            if order.side is Sell {
                assert(-1 * qty@ == -qty@);
            } else {
                assert(1 * qty@ == qty@);
            }
        }
        assert(filled_order.signed_remaining_of() == sign * left@) by {
            if left@ == 0 {
                assert(sign * 0 == 0);
            }
        }
        assert(sign * left@ == sign * order.fillable()@ - sign * qty@) by (nonlinear_arith)
            requires
                left@ == order.fillable()@ - qty@,
        ;
    }

    /// A cancel releases the order's exposure: once a cancel is sent for a
    /// live order, and where the arithmetic is exact, delta is what it was
    /// plus the signed remainder of the order.
    pub proof fn lemma_cancel_releases_exposure(self, id: OrderId)
        requires
            self.wf(),
            self.knows(id),
            self.order(id).is_live(),
            self.reconciliation().reconciles_exactly(),
            self.cancel_requested(id).reconciliation().reconciles_exactly(),
        ensures
            self.cancel_requested(id).delta().unwrap()@ == self.delta().unwrap()@ + self.order(
                id,
            ).side.sign_of() * self.order(id).fillable()@,
            self.cancel_requested(id).order(id).state is CancelPending,
    {
        let order = self.order(id);
        let i = place_of(self.orders, id);
        lemma_place_of_found(self.orders, id);
        let after = self.cancel_requested(id);
        self.lemma_replaced_wf(id, order.cancel_requested());
        lemma_live_units_update(self.orders, i, order.cancel_requested());
        self.lemma_delta_reconciles();
        after.lemma_delta_reconciles();
    }

    /// A full fill moves the order's quantity from open to filled: create
    /// an order under an unused identifier, have it acknowledged and filled
    /// in full, and, where the arithmetic is exact, delta after the fill is
    /// what it was after the acknowledgement. It is zero exactly where the
    /// target is what was held before, filled or open, together with the
    /// signed fill; in an engine that had filled nothing and had no live
    /// order, exactly where the target is the signed fill.
    pub proof fn lemma_full_fill_settles_delta(self, order: Order, price: Decimal)
        requires
            self.wf(),
            order.wf(),
            order.state is New,
            !self.knows(order.id),
            self.created(order).accepted(order.id).reconciliation().reconciles_exactly(),
            self.created(order).accepted(order.id).filled_with(
                order.id,
                order.original_qty,
                price,
            ) matches Some(after) && after.reconciliation().reconciles_exactly(),
            sum_is_exact(self.filled, order.side.signed_spec(order.original_qty)),
            difference_is_exact(order.original_qty, order.original_qty),
        ensures
            ({
                let accepted = self.created(order).accepted(order.id);
                let after = accepted.filled_with(order.id, order.original_qty, price).unwrap();
                let fill = order.side.sign_of() * order.original_qty@;
                &&& after.delta().unwrap()@ == accepted.delta().unwrap()@
                &&& after.delta().unwrap()@ == 0 <==> self.target@ == self.filled@ + live_units(
                    self.orders,
                ) + fill
                &&& after.order(order.id).state is Filled
            }),
    {
        let id = order.id;
        let n = self.orders.len() as int;
        lemma_place_of_found(self.orders, id);
        let e1 = self.created(order);
        assert forall|j: int| 0 <= j < n implies e1.orders[j].id != id by {
            assert(e1.orders[j] == self.orders[j]);
        }
        lemma_place_of(e1.orders, id, n);
        assert forall|k: int| 0 <= k < e1.orders.len() implies (#[trigger] e1.orders[k]).wf() by {
            if k < n {
                assert(e1.orders[k] == self.orders[k]);
            }
        }
        assert forall|a: int, b: int| 0 <= a < b < e1.orders.len() implies (
        #[trigger] e1.orders[a]).id != (#[trigger] e1.orders[b]).id by {
            assert(e1.orders[a] == self.orders[a]);
            if b < n {
                assert(e1.orders[b] == self.orders[b]);
            }
        }
        assert(e1.wf());
        e1.lemma_replaced_wf(id, order.accepted());
        let e2 = e1.accepted(id);
        let after = e2.filled_with(id, order.original_qty, price).unwrap();
        e2.lemma_fill_keeps_delta(id, order.original_qty, price);
        let left = order.accepted().fillable().minus(order.original_qty).unwrap();
        assert(left@ == 0);
        e2.lemma_replaced_wf(id, order.accepted().after_fill(order.original_qty)->Ok_0);
        assert(after.orders.drop_last() =~= self.orders);
        assert(after.orders.last().state is Filled);
        assert(live_units(after.orders) == live_units(self.orders));
        lemma_exposure_units(after.orders);
        after.lemma_delta_reconciles_units();
        order.original_qty.lemma_negated();
        let signed = order.side.signed_spec(order.original_qty);
        assert(signed@ == order.side.sign_of() * order.original_qty@) by {
            if order.side is Sell {
                assert(-1 * order.original_qty@ == -order.original_qty@);
            } else {
                assert(1 * order.original_qty@ == order.original_qty@);
            }
        }
    }

    /// Where the arithmetic of delta is exact, delta is the target, less what
    /// has been filled, less the exact sum of the exposures.
    pub proof fn lemma_delta_reconciles_units(self)
        requires
            self.reconciliation().reconciles_exactly(),
        ensures
            self.delta() matches Some(d) && d@ == self.target@ - self.filled@ - total_units(
                exposures(self.orders),
            ),
    {
        self.reconciliation().lemma_delta_reconciles();
    }
}

/// The registry of orders with the position and the reconciliation state.
#[derive(Debug)]
pub struct OmsEngine {
    core: OmsCore,
    orders: Vec<Order>,
    position: Position,
}

impl View for OmsEngine {
    type V = EngineView;

    closed spec fn view(&self) -> EngineView {
        EngineView {
            target: self.core@.target,
            filled: self.core@.filled,
            orders: self.orders@,
            position: self.position,
        }
    }
}

impl OmsEngine {
    /// The engine's invariant: its view is well formed, and the open orders
    /// that the reconciliation state holds are the exposures of the registry.
    pub closed spec fn wf(&self) -> bool {
        &&& self@.wf()
        &&& self.core@.open == exposures(self.orders@)
    }

    /// An engine without orders, flat, with target zero.
    pub fn new() -> (r: OmsEngine)
        ensures
            r.wf(),
            r@ == (EngineView {
                target: Decimal::of(0, 0),
                filled: Decimal::of(0, 0),
                orders: Seq::empty(),
                position: r@.position,
            }),
            r@.position.net_qty == Decimal::of(0, 0),
            r@.position.avg_price == Decimal::of(0, 0),
            r@.position.realized_pnl == Decimal::of(0, 0),
    {
        OmsEngine { core: OmsCore::new(), orders: Vec::new(), position: Position::new() }
    }

    /// Sets what the strategy wants to hold.
    pub fn set_target_position(&mut self, qty: Decimal)
        requires
            old(self).wf(),
        ensures
            final(self).wf(),
            final(self)@ == old(self)@.with_target(qty),
    {
        self.core.set_target_position(Quantity(qty));
    }

    /// What the strategy wants to hold.
    pub fn target(&self) -> (r: Decimal)
        ensures
            r == self@.target,
    {
        self.core.target().0
    }

    /// What has been filled, signed and summed.
    pub fn filled(&self) -> (r: Decimal)
        ensures
            r == self@.filled,
    {
        self.core.filled().0
    }

    /// The quantity still to be placed to reach the target, or an error
    /// where a step of the arithmetic overflows. Where every step is exact
    /// it is the target, less what has been filled, less the signed
    /// remainders of the live orders.
    pub fn delta(&self) -> (r: Result<Decimal, ArithmeticError>)
        requires
            self.wf(),
        ensures
            match self@.delta() {
                Some(d) => r == Ok::<Decimal, ArithmeticError>(d),
                None => r.is_err(),
            },
            self@.reconciliation().reconciles_exactly() ==> (r matches Ok(d) && d@
                == self@.target@ - self@.filled@ - live_units(self@.orders)),
    {
        proof {
            if self@.reconciliation().reconciles_exactly() {
                self@.lemma_delta_reconciles();
            }
        }
        match self.core.delta() {
            Ok(q) => Ok(q.0),
            Err(e) => Err(e),
        }
    }

    /// Whether every step of delta is exact: no sum and no difference on
    /// the way overflows or is rounded.
    pub fn reconciles_exactly(&self) -> (b: bool)
        requires
            self.wf(),
        ensures
            b == self@.reconciliation().reconciles_exactly(),
    {
        self.core.reconciles_exactly()
    }

    /// Delta where every step of it is exact, else `None`: the target, less
    /// what has been filled, less the signed remainders of the live orders,
    /// to the last digit.
    pub fn exact_delta(&self) -> (r: Option<Decimal>)
        requires
            self.wf(),
        ensures
            r.is_some() == self@.reconciliation().reconciles_exactly(),
            r matches Some(d) ==> self@.delta() == Some(d) && d@ == self@.target@ - self@.filled@
                - live_units(self@.orders),
    {
        if !self.reconciles_exactly() {
            return None;
        }
        proof {
            self@.lemma_delta_reconciles();
        }
        match self.delta() {
            Ok(d) => Some(d),
            Err(_) => None,
        }
    }

    /// The engine's view is well formed wherever the engine is.
    pub proof fn lemma_view_wf(&self)
        requires
            self.wf(),
        ensures
            self@.wf(),
    {
    }

    /// The position.
    pub fn position(&self) -> (r: &Position)
        requires
            self.wf(),
        ensures
            *r == self@.position,
            r.wf(),
    {
        &self.position
    }

    /// Every order as shown to a reader, oldest first.
    pub fn order_views(&self) -> (r: Vec<OrderView>)
        ensures
            r@.len() == self@.orders.len(),
            forall|i: int| 0 <= i < r@.len() ==> (#[trigger] r@[i]).shows(self@.orders[i]),
    {
        let mut views: Vec<OrderView> = Vec::new();
        let mut i: usize = 0;
        while i < self.orders.len()
            invariant
                i <= self.orders.len(),
                views@.len() == i,
                forall|k: int| 0 <= k < i ==> (#[trigger] views@[k]).shows(self.orders@[k]),
            decreases self.orders.len() - i,
        {
            views.push(OrderView::from_order(&self.orders[i]));
            i = i + 1;
        }
        views
    }

    /// All orders and the position at this moment.
    pub fn snapshot(&self) -> (r: OmsSnapshot)
        ensures
            r.orders@.len() == self@.orders.len(),
            forall|i: int|
                0 <= i < r.orders@.len() ==> (#[trigger] r.orders@[i]).shows(self@.orders[i]),
            r.net_position == self@.position.net_qty,
            r.avg_price == self@.position.avg_price,
    {
        OmsSnapshot {
            orders: self.order_views(),
            net_position: self.position.net_qty,
            avg_price: self.position.avg_price,
        }
    }

    /// Where in the registry the order with identifier `id` stands.
    fn find(&self, id: OrderId) -> (r: Option<usize>)
        ensures
            match r {
                Some(i) => i == place_of(self.orders@, id) && i < self.orders@.len()
                    && self.orders@[i as int].id == id,
                None => place_of(self.orders@, id) == self.orders@.len(),
            },
    {
        let mut i: usize = 0;
        while i < self.orders.len()
            invariant
                i <= self.orders.len(),
                forall|j: int| 0 <= j < i ==> self.orders@[j].id != id,
            decreases self.orders.len() - i,
        {
            if self.orders[i].id.0 == id.0 {
                proof {
                    lemma_place_of(self.orders@, id, i as int);
                }
                return Some(i);
            }
            i = i + 1;
        }
        proof {
            lemma_place_of(self.orders@, id, i as int);
        }
        None
    }

    /// Whether an order with identifier `id` is in the registry.
    pub fn contains(&self, id: OrderId) -> (b: bool)
        ensures
            b == self@.knows(id),
    {
        self.find(id).is_some()
    }

    /// The order with identifier `id`, where the registry holds one.
    pub fn order(&self, id: OrderId) -> (r: Option<Order>)
        ensures
            r.is_some() == self@.knows(id),
            r matches Some(o) ==> o == self@.order(id) && o.id == id,
    {
        match self.find(id) {
            Some(i) => Some(self.orders[i]),
            None => None,
        }
    }

    /// Puts a new order under the identifier `id` into the registry and
    /// returns whether it did: it does not, and nothing changes, where the
    /// identifier is already in use.
    pub fn create_order_with_id(
        &mut self,
        id: OrderId,
        side: Side,
        qty: Decimal,
        price: Decimal,
    ) -> (created: bool)
        requires
            old(self).wf(),
            qty@ > 0,
            price@ >= 0,
        ensures
            final(self).wf(),
            created == !old(self)@.knows(id),
            created ==> final(self)@ == old(self)@.created(
                Order { id, side, original_qty: qty, limit_price: price, state: OrderState::New },
            ),
            !created ==> final(self)@ == old(self)@,
    {
        if self.find(id).is_some() {
            return false;
        }
        let order = Order::with_id(id, side, qty, price);
        proof {
            lemma_place_of_found(self.orders@, id);
            assert(self.orders@.push(order).drop_last() =~= self.orders@);
        }
        self.orders.push(order);
        true
    }

    /// Creates an order under a freshly drawn identifier and returns the
    /// identifier, or `None`, with nothing changed, where the identifier
    /// drawn is already in use. With no order in the registry every
    /// identifier is unused, so creation succeeds whatever is drawn.
    pub fn create_order(&mut self, side: Side, qty: Decimal, price: Decimal) -> (r: Option<OrderId>)
        requires
            old(self).wf(),
            qty@ > 0,
            price@ >= 0,
        ensures
            final(self).wf(),
            old(self)@.orders.len() == 0 ==> r is Some,
            match r {
                Some(id) => !old(self)@.knows(id) && final(self)@ == old(self)@.created(
                    Order { id, side, original_qty: qty, limit_price: price, state: OrderState::New },
                ),
                None => final(self)@ == old(self)@,
            },
    {
        let id = Order::new(side, qty, price).id;
        if self.create_order_with_id(id, side, qty, price) {
            Some(id)
        } else {
            None
        }
    }

    /// Puts `order` in the place `i` of the registry and brings the open
    /// exposure in step.
    fn replace(&mut self, i: usize, order: Order)
        requires
            old(self).wf(),
            i < old(self)@.orders.len(),
            i == place_of(old(self)@.orders, order.id),
            order.wf(),
        ensures
            final(self).wf(),
            final(self)@ == old(self)@.replaced(order.id, order),
    {
        proof {
            lemma_place_of_found(self.orders@, order.id);
            self@.lemma_replaced_wf(order.id, order);
        }
        self.orders.set(i, order);
        self.recompute_open_exposure();
    }

    /// The venue acknowledged order `id`.
    pub fn on_order_accepted(&mut self, id: OrderId)
        requires
            old(self).wf(),
            old(self)@.knows(id),
        ensures
            final(self).wf(),
            final(self)@ == old(self)@.accepted(id),
    {
        let i = self.find(id).unwrap();
        let mut order = self.orders[i];
        order.on_accepted();
        self.replace(i, order);
    }

    /// The venue refused order `id`. The filled quantity is untouched.
    pub fn on_order_rejected(&mut self, id: OrderId)
        requires
            old(self).wf(),
            old(self)@.knows(id),
        ensures
            final(self).wf(),
            final(self)@ == old(self)@.rejected(id),
    {
        let i = self.find(id).unwrap();
        let mut order = self.orders[i];
        order.on_rejected();
        self.replace(i, order);
    }

    /// A fill of `fill_qty` at `price` arrived for order `id`. A fill on an
    /// order that no longer takes fills is late or a duplicate: it is dropped
    /// and nothing changes. Else the order, the position and the filled
    /// quantity take it. Where a step of the arithmetic fails nothing changes
    /// and the result is an error. A fill on a live order, taken with exact
    /// arithmetic, leaves delta as it is: it moves the quantity from open to
    /// filled.
    pub fn on_fill(&mut self, id: OrderId, fill_qty: Decimal, price: Decimal) -> (r: Result<
        (),
        ArithmeticError,
    >)
        requires
            old(self).wf(),
            old(self)@.admits_fill(id, fill_qty),
        ensures
            final(self).wf(),
            match old(self)@.filled_with(id, fill_qty, price) {
                Some(e) => r.is_ok() && final(self)@ == e,
                None => r.is_err() && final(self)@ == old(self)@,
            },
            !old(self)@.order(id).takes_fills() ==> r.is_ok() && final(self)@ == old(self)@,
            ({
                &&& r.is_ok()
                &&& old(self)@.order(id).is_live()
                &&& old(self)@.reconciliation().reconciles_exactly()
                &&& final(self)@.reconciliation().reconciles_exactly()
                &&& sum_is_exact(old(self)@.filled, old(self)@.order(id).side.signed_spec(fill_qty))
                &&& difference_is_exact(old(self)@.order(id).fillable(), fill_qty)
            }) ==> final(self)@.delta().unwrap()@ == old(self)@.delta().unwrap()@,
    {
        proof {
            use_type_invariant(&fill_qty);
            if old(self)@.order(id).is_live() && old(self)@.filled_with(id, fill_qty, price).is_some()
                && old(self)@.reconciliation().reconciles_exactly() && old(self)@.filled_with(
                id,
                fill_qty,
                price,
            ).unwrap().reconciliation().reconciles_exactly() && sum_is_exact(
                old(self)@.filled,
                old(self)@.order(id).side.signed_spec(fill_qty),
            ) && difference_is_exact(old(self)@.order(id).fillable(), fill_qty) {
                old(self)@.lemma_fill_keeps_delta(id, fill_qty, price);
            }
        }
        let i = self.find(id).unwrap();
        let mut order = self.orders[i];
        match order.on_fill(fill_qty) {
            Ok(true) => {},
            Ok(false) => {
                return Ok(());
            },
            Err(e) => {
                return Err(e);
            },
        }
        let signed = order.side.signed(fill_qty);
        let mut position = self.position;
        match position.apply_fill(signed, price) {
            Ok(()) => {},
            Err(e) => {
                return Err(e);
            },
        }
        match self.core.on_fill(Quantity(signed)) {
            Ok(()) => {},
            Err(e) => {
                return Err(e);
            },
        }
        self.position = position;
        self.replace(i, order);
        Ok(())
    }

    /// A cancel is sent for the live order `id`: it is `CancelPending` and
    /// no longer counts as open. Where the arithmetic of delta is exact,
    /// delta is what it was plus the signed remainder of the order.
    pub fn request_cancel(&mut self, id: OrderId)
        requires
            old(self).wf(),
            old(self)@.knows(id),
            old(self)@.order(id).is_live(),
        ensures
            final(self).wf(),
            final(self)@ == old(self)@.cancel_requested(id),
            final(self)@.order(id).state is CancelPending,
            old(self)@.reconciliation().reconciles_exactly()
                && final(self)@.reconciliation().reconciles_exactly()
                ==> final(self)@.delta().unwrap()@ == old(self)@.delta().unwrap()@
                + old(self)@.order(id).side.sign_of() * old(self)@.order(id).fillable()@,
    {
        proof {
            lemma_place_of_found(self.orders@, id);
            self@.lemma_replaced_wf(id, self@.order(id).cancel_requested());
            if self@.reconciliation().reconciles_exactly() && self@.cancel_requested(
                id,
            ).reconciliation().reconciles_exactly() {
                self@.lemma_cancel_releases_exposure(id);
            }
        }
        let i = self.find(id).unwrap();
        let mut order = self.orders[i];
        order.on_cancel_requested();
        self.replace(i, order);
    }

    /// The venue confirmed the cancel of order `id`.
    pub fn on_cancel_confirmed(&mut self, id: OrderId)
        requires
            old(self).wf(),
            old(self)@.knows(id),
            old(self)@.order(id).state is CancelPending,
        ensures
            final(self).wf(),
            final(self)@ == old(self)@.cancel_confirmed(id),
    {
        let i = self.find(id).unwrap();
        let mut order = self.orders[i];
        order.on_cancel_confirmed();
        self.replace(i, order);
    }

    /// A cancel is sent for every live order. Returns the identifiers of
    /// the orders it was sent for, oldest first.
    pub fn cancel_all(&mut self) -> (r: Vec<OrderId>)
        requires
            old(self).wf(),
        ensures
            final(self).wf(),
            final(self)@ == old(self)@.cancelled_all(),
            r@ == live_ids(old(self)@.orders),
    {
        let ghost before = self.orders@;
        let mut ids: Vec<OrderId> = Vec::new();
        let mut i: usize = 0;
        while i < self.orders.len()
            invariant
                i <= self.orders.len(),
                self.orders@.len() == before.len(),
                before == old(self).orders@,
                old(self).wf(),
                self.core@.target == old(self).core@.target,
                self.core@.filled == old(self).core@.filled,
                self.position == old(self).position,
                ids@ == live_ids(before.take(i as int)),
                forall|k: int| 0 <= k < i ==> self.orders@[k] == all_cancelled(before)[k],
                forall|k: int| i <= k < before.len() ==> self.orders@[k] == before[k],
            decreases self.orders.len() - i,
        {
            assert(before.take(i + 1).drop_last() =~= before.take(i as int));
            assert(before.take(i + 1).last() == before[i as int]);
            let mut order = self.orders[i];
            if order.live() {
                ids.push(order.id);
                order.on_cancel_requested();
                self.orders.set(i, order);
            }
            i = i + 1;
        }
        proof {
            assert(before.take(i as int) =~= before);
            assert(self.orders@ =~= all_cancelled(before));
            let next = old(self)@.cancelled_all();
            assert forall|k: int| 0 <= k < next.orders.len() implies (#[trigger] next.orders[k]).wf() by {
                assert(old(self)@.orders[k].wf());
            }
            assert forall|a: int, b: int| 0 <= a < b < next.orders.len() implies (
            #[trigger] next.orders[a]).id != (#[trigger] next.orders[b]).id by {
                assert(old(self)@.orders[a].id != old(self)@.orders[b].id);
            }
        }
        self.recompute_open_exposure();
        ids
    }

    /// Drops the open orders of the reconciliation state and adds the signed
    /// remainder of each live order of the registry again.
    fn recompute_open_exposure(&mut self)
        ensures
            final(self)@ == old(self)@,
            final(self).core@.open == exposures(final(self).orders@),
    {
        self.core.clear_open_orders();
        let mut i: usize = 0;
        while i < self.orders.len()
            invariant
                i <= self.orders.len(),
                self@ == old(self)@,
                self.core@.open == exposures(self.orders@.take(i as int)),
            decreases self.orders.len() - i,
        {
            assert(self.orders@.take(i + 1).drop_last() =~= self.orders@.take(i as int));
            let order = &self.orders[i];
            if order.live() {
                let qty = order.remaining_signed_qty();
                self.core.add_open_order(Quantity(qty));
            }
            i = i + 1;
        }
        assert(self.orders@.take(i as int) =~= self.orders@);
    }

    /// The identifiers of the live orders, oldest first.
    pub fn open_order_ids(&self) -> (r: Vec<OrderId>)
        ensures
            r@ == live_ids(self@.orders),
    {
        let mut ids: Vec<OrderId> = Vec::new();
        let mut i: usize = 0;
        while i < self.orders.len()
            invariant
                i <= self.orders.len(),
                ids@ == live_ids(self.orders@.take(i as int)),
            decreases self.orders.len() - i,
        {
            assert(self.orders@.take(i + 1).drop_last() =~= self.orders@.take(i as int));
            if self.orders[i].live() {
                ids.push(self.orders[i].id);
            }
            i = i + 1;
        }
        assert(self.orders@.take(i as int) =~= self.orders@);
        ids
    }
}

} // verus!
