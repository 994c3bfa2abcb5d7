//! The engine over whole histories: what holds after any run of inputs.

use crate::decimal::sum_is_exact;
use crate::decimal::Decimal;
use crate::oms::engine::all_cancelled;
use crate::oms::engine::lemma_place_of_found;
use crate::oms::engine::live_units;
use crate::oms::engine::place_of;
use crate::oms::engine::EngineView;
use crate::oms::order::Order;
use crate::oms::order::OrderId;
use crate::oms::position::Position;
use vstd::prelude::*;

verus! {

/// One input to the engine.
pub enum EngineInput {
    /// `set_target_position`.
    SetTarget { qty: Decimal },
    /// `create_order`, with the order that it created.
    Create { order: Order },
    /// `on_order_accepted`.
    Accept { id: OrderId },
    /// `on_order_rejected`.
    Reject { id: OrderId },
    /// `on_fill`.
    Fill { id: OrderId, qty: Decimal, price: Decimal },
    /// `request_cancel`.
    RequestCancel { id: OrderId },
    /// `on_cancel_confirmed`.
    ConfirmCancel { id: OrderId },
    /// `cancel_all`.
    CancelAll,
}

impl EngineView {
    /// The engine before any input: no orders, flat, target zero.
    pub open spec fn fresh() -> EngineView {
        EngineView {
            target: Decimal::of(0, 0),
            filled: Decimal::of(0, 0),
            orders: Seq::empty(),
            position: Position {
                net_qty: Decimal::of(0, 0),
                avg_price: Decimal::of(0, 0),
                realized_pnl: Decimal::of(0, 0),
            },
        }
    }

    /// Whether the engine can take an input: what the functions of the
    /// engine ask of their callers, of decimals that are within bounds, as
    /// every decimal at hand is.
    pub open spec fn admits(self, input: EngineInput) -> bool {
        match input {
            EngineInput::SetTarget { .. } => true,
            EngineInput::Create { order } => order.wf() && order.state is New && !self.knows(
                order.id,
            ),
            EngineInput::Accept { id } => self.knows(id),
            EngineInput::Reject { id } => self.knows(id),
            EngineInput::Fill { id, qty, .. } => self.admits_fill(id, qty) && qty.in_bounds(),
            EngineInput::RequestCancel { id } => self.knows(id) && self.order(id).is_live(),
            EngineInput::ConfirmCancel { id } => self.knows(id) && self.order(
                id,
            ).state is CancelPending,
            EngineInput::CancelAll => true,
        }
    }

    /// The engine after an input; `None` where the arithmetic of a fill
    /// fails.
    pub open spec fn step(self, input: EngineInput) -> Option<EngineView> {
        match input {
            EngineInput::SetTarget { qty } => Some(self.with_target(qty)),
            EngineInput::Create { order } => Some(self.created(order)),
            EngineInput::Accept { id } => Some(self.accepted(id)),
            EngineInput::Reject { id } => Some(self.rejected(id)),
            EngineInput::Fill { id, qty, price } => self.filled_with(id, qty, price),
            EngineInput::RequestCancel { id } => Some(self.cancel_requested(id)),
            EngineInput::ConfirmCancel { id } => Some(self.cancel_confirmed(id)),
            EngineInput::CancelAll => Some(self.cancelled_all()),
        }
    }

    /// The signed quantity that an input fills, in units of `10^-28`: that
    /// of a fill on an order that takes fills, with the sign of the order's
    /// side, and nothing for a dropped fill or any other input.
    pub open spec fn fill_units(self, input: EngineInput) -> int {
        match input {
            EngineInput::Fill { id, qty, .. } => if self.order(id).takes_fills() {
                self.order(id).side.sign_of() * qty@
            } else {
                0
            },
            _ => 0,
        }
    }

    /// Whether the filled quantity takes an input without rounding. A
    /// dropped fill leaves it as it is.
    pub open spec fn fills_exactly(self, input: EngineInput) -> bool {
        match input {
            EngineInput::Fill { id, qty, .. } => self.order(id).takes_fills() ==> sum_is_exact(
                self.filled,
                self.order(id).side.signed_spec(qty),
            ),
            _ => true,
        }
    }

    /// A late or duplicate fill is dropped: on an order that no longer takes
    /// fills it changes nothing, so the orders, the position, the filled
    /// quantity and delta are what they were.
    pub proof fn lemma_late_fill_dropped(self, id: OrderId, qty: Decimal, price: Decimal)
        requires
            !self.order(id).takes_fills(),
        ensures
            self.filled_with(id, qty, price) == Some(self),
            self.filled_with(id, qty, price).unwrap().delta() == self.delta(),
    {
    }

    /// An input that the engine admits and takes leaves it well formed.
    pub proof fn lemma_step_wf(self, input: EngineInput)
        requires
            self.wf(),
            self.admits(input),
            self.step(input).is_some(),
        ensures
            self.step(input).unwrap().wf(),
    {
        let next = self.step(input).unwrap();
        Decimal::lemma_of(0, 0);
        assert(0 * crate::decimal::pow10(28) == 0) by (nonlinear_arith);
        match input {
            EngineInput::SetTarget { .. } => {},
            EngineInput::Create { order } => {
                lemma_place_of_found(self.orders, order.id);
                assert forall|k: int| 0 <= k < next.orders.len() implies (
                #[trigger] next.orders[k]).wf() by {
                    if k < self.orders.len() {
                        assert(next.orders[k] == self.orders[k]);
                    }
                }
                assert forall|a: int, b: int| 0 <= a < b < next.orders.len() implies (
                #[trigger] next.orders[a]).id != (#[trigger] next.orders[b]).id by {
                    assert(next.orders[a] == self.orders[a]);
                    if b < self.orders.len() {
                        assert(next.orders[b] == self.orders[b]);
                    }
                }
            },
            EngineInput::Accept { id } => {
                lemma_place_of_found(self.orders, id);
                self.lemma_replaced_wf(id, self.order(id).accepted());
            },
            EngineInput::Reject { id } => {
                lemma_place_of_found(self.orders, id);
                self.lemma_replaced_wf(id, self.order(id).rejected());
            },
            EngineInput::Fill { id, qty, price } => {
                if self.order(id).takes_fills() {
                    lemma_place_of_found(self.orders, id);
                    let o = self.order(id).after_fill(qty)->Ok_0;
                    self.lemma_replaced_wf(id, o);
                    let mid = self.replaced(id, o);
                    assert(next.orders == mid.orders);
                }
            },
            EngineInput::RequestCancel { id } => {
                lemma_place_of_found(self.orders, id);
                self.lemma_replaced_wf(id, self.order(id).cancel_requested());
            },
            EngineInput::ConfirmCancel { id } => {
                lemma_place_of_found(self.orders, id);
                self.lemma_replaced_wf(id, self.order(id).cancel_confirmed());
            },
            EngineInput::CancelAll => {
                assert forall|k: int| 0 <= k < next.orders.len() implies (
                #[trigger] next.orders[k]).wf() by {
                    assert(self.orders[k].wf());
                }
                assert forall|a: int, b: int| 0 <= a < b < next.orders.len() implies (
                #[trigger] next.orders[a]).id != (#[trigger] next.orders[b]).id by {
                    assert(self.orders[a].id != self.orders[b].id);
                }
            },
        }
    }
}

/// The engine after a run of inputs from the start; `None` where an input
/// is not admitted or the arithmetic of a fill fails.
pub open spec fn replay(inputs: Seq<EngineInput>) -> Option<EngineView>
    decreases inputs.len(),
{
    if inputs.len() == 0 {
        Some(EngineView::fresh())
    } else {
        match replay(inputs.drop_last()) {
            Some(e) => if e.admits(inputs.last()) {
                e.step(inputs.last())
            } else {
                None
            },
            None => None,
        }
    }
}

/// The target after a run of inputs, in units of `10^-28`: the quantity of
/// the last `SetTarget`, zero where there was none.
pub open spec fn target_units(inputs: Seq<EngineInput>) -> int
    decreases inputs.len(),
{
    if inputs.len() == 0 {
        0
    } else {
        match inputs.last() {
            EngineInput::SetTarget { qty } => qty@,
            _ => target_units(inputs.drop_last()),
        }
    }
}

/// The signed fills of a run of inputs, summed exactly, in units of
/// `10^-28`.
pub open spec fn filled_units(inputs: Seq<EngineInput>) -> int
    decreases inputs.len(),
{
    if inputs.len() == 0 {
        0
    } else {
        match replay(inputs.drop_last()) {
            Some(e) => filled_units(inputs.drop_last()) + e.fill_units(inputs.last()),
            None => filled_units(inputs.drop_last()),
        }
    }
}

/// Whether the filled quantity took every fill of a run without rounding.
pub open spec fn fills_exact(inputs: Seq<EngineInput>) -> bool
    decreases inputs.len(),
{
    if inputs.len() == 0 {
        true
    } else {
        &&& fills_exact(inputs.drop_last())
        &&& replay(inputs.drop_last()) matches Some(e) ==> e.fills_exactly(inputs.last())
    }
}

/// After any run of inputs the engine is well formed; its target is the
/// last one set; and, where no fill was rounded, its filled quantity is the
/// exact sum of the signed fills.
pub proof fn lemma_replay(inputs: Seq<EngineInput>)
    requires
        replay(inputs).is_some(),
    ensures
        replay(inputs).unwrap().wf(),
        replay(inputs).unwrap().target@ == target_units(inputs),
        fills_exact(inputs) ==> replay(inputs).unwrap().filled@ == filled_units(inputs),
    decreases inputs.len(),
{
    Decimal::lemma_of(0, 0);
    assert(0 * crate::decimal::pow10(28) == 0) by (nonlinear_arith);
    if inputs.len() > 0 {
        let before = replay(inputs.drop_last()).unwrap();
        let input = inputs.last();
        lemma_replay(inputs.drop_last());
        before.lemma_step_wf(input);
        match input {
            EngineInput::Fill { id, qty, price } => {
                if fills_exact(inputs) && before.order(id).takes_fills() {
                    lemma_place_of_found(before.orders, id);
                    let order = before.order(id);
                    assert(order.wf());
                    let signed = order.side.signed_spec(qty);
                    assert(signed@ == order.side.sign_of() * qty@) by {
                        if order.side is Sell {
                            qty.lemma_negated();
                            assert(-1 * qty@ == -qty@);
                        } else {
                            assert(1 * qty@ == qty@);
                        }
                    }
                }
            },
            _ => {},
        }
    }
}

/// After any run of inputs, what remains of every order lies between zero
/// and its original quantity, and a flat position has no average price.
pub proof fn lemma_bounds_after_any_run(inputs: Seq<EngineInput>)
    requires
        replay(inputs).is_some(),
    ensures
        forall|k: int|
            0 <= k < replay(inputs).unwrap().orders.len() ==> 0 <= (
            #[trigger] replay(inputs).unwrap().orders[k]).remaining_of() <= replay(inputs).unwrap().orders[k].original_qty@,
        replay(inputs).unwrap().position.net_qty@ == 0 ==> replay(inputs).unwrap().position.avg_price@ == 0,
{
    lemma_replay(inputs);
    let e = replay(inputs).unwrap();
    assert forall|k: int| 0 <= k < e.orders.len() implies 0 <= (#[trigger] e.orders[k]).remaining_of()
        <= e.orders[k].original_qty@ by {
        assert(e.orders[k].wf());
    }
}

/// No input lets an order grow: every order keeps its place and its
/// identifier, and what remains of it after the input is at most what
/// remained before.
pub proof fn lemma_remaining_never_grows(e: EngineView, input: EngineInput)
    requires
        e.wf(),
        e.admits(input),
        e.step(input).is_some(),
    ensures
        e.step(input).unwrap().orders.len() >= e.orders.len(),
        forall|k: int|
            0 <= k < e.orders.len() ==> (#[trigger] e.step(input).unwrap().orders[k]).id
                == e.orders[k].id && e.step(input).unwrap().orders[k].remaining_of()
                <= e.orders[k].remaining_of(),
{
    let next = e.step(input).unwrap();
    match input {
        EngineInput::SetTarget { .. } => {},
        EngineInput::Create { .. } => {},
        EngineInput::Accept { id } => {
            lemma_place_of_found(e.orders, id);
        },
        EngineInput::Reject { id } => {
            lemma_place_of_found(e.orders, id);
        },
        EngineInput::Fill { id, qty, price } => {
            if e.order(id).takes_fills() {
                lemma_place_of_found(e.orders, id);
                let o = e.order(id).after_fill(qty)->Ok_0;
                assert(next.orders == e.replaced(id, o).orders);
            }
        },
        EngineInput::RequestCancel { id } => {
            lemma_place_of_found(e.orders, id);
        },
        EngineInput::ConfirmCancel { id } => {
            lemma_place_of_found(e.orders, id);
        },
        EngineInput::CancelAll => {
            assert forall|k: int| 0 <= k < e.orders.len() implies (#[trigger] next.orders[k]).id
                == e.orders[k].id && next.orders[k].remaining_of() <= e.orders[k].remaining_of() by {
                assert(e.orders[k].wf());
            }
        },
    }
    assert forall|k: int| 0 <= k < e.orders.len() implies (#[trigger] next.orders[k]).id
        == e.orders[k].id && next.orders[k].remaining_of() <= e.orders[k].remaining_of() by {
        assert(e.orders[k].wf());
    }
}

/// Reconciliation over whole histories: after any run of inputs that the
/// engine admits, where no step of the arithmetic was rounded, delta is the
/// target, less the sum of the signed fills, less the sum of the signed
/// remainders of the live orders.
pub proof fn lemma_reconciliation(inputs: Seq<EngineInput>)
    requires
        replay(inputs).is_some(),
        fills_exact(inputs),
        replay(inputs).unwrap().reconciliation().reconciles_exactly(),
    ensures
        replay(inputs).unwrap().delta() matches Some(d) && d@ == target_units(inputs)
            - filled_units(inputs) - live_units(replay(inputs).unwrap().orders),
{
    lemma_replay(inputs);
    replay(inputs).unwrap().lemma_delta_reconciles();
}

} // verus!
