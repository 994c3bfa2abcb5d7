//! Orders and their life cycle.
//!
//! `New -> Open -> PartiallyFilled -> Filled`, `{Open, PartiallyFilled} ->
//! CancelPending -> Cancelled` and `New -> Rejected`. A message that arrives
//! late or twice changes nothing.

use crate::decimal::difference_is_exact;
use crate::decimal::pow10;
use crate::decimal::ArithmeticError;
use crate::decimal::Decimal;
use vstd::prelude::*;

verus! {

/// The identifier of an order: the 128 bits of a UUID.
#[derive(Debug, Clone, Copy, PartialEq, Eq, Hash, Structural)]
pub struct OrderId(pub u128);

/// The side of an order.
#[derive(Debug, Clone, Copy, PartialEq, Eq, Structural)]
pub enum Side {
    Buy,
    Sell,
}

impl Side {
    /// The sign of the side as a number: 1 for `Buy`, -1 for `Sell`.
    pub open spec fn sign_of(self) -> int {
        match self {
            Side::Buy => 1,
            Side::Sell => -1,
        }
    }

    /// The sign of the side as a decimal: 1 for `Buy`, -1 for `Sell`.
    pub fn sign(&self) -> (r: Decimal)
        ensures
            r@ == self.sign_of() * pow10(28),
            r.scale_of() == 0,
    {
        match self {
            Side::Buy => Decimal::one(),
            Side::Sell => Decimal::one().neg(),
        }
    }

    /// `qty` for a buy, `-qty` for a sell.
    pub open spec fn signed_spec(self, qty: Decimal) -> Decimal {
        match self {
            Side::Buy => qty,
            Side::Sell => qty.negated(),
        }
    }

    /// `qty` for a buy, `-qty` for a sell.
    pub fn signed(&self, qty: Decimal) -> (r: Decimal)
        ensures
            r == self.signed_spec(qty),
            r@ == self.sign_of() * qty@,
            r.scale_of() == qty.scale_of(),
    {
        match self {
            Side::Buy => qty,
            Side::Sell => qty.neg(),
        }
    }
}

/// Where an order stands.
#[derive(Debug, Clone, Copy, PartialEq)]
pub enum OrderState {
    /// Created here, not yet acknowledged by the venue.
    New,
    /// Accepted by the venue and live.
    Open { remaining: Decimal },
    /// Filled in part and still live.
    PartiallyFilled { remaining: Decimal },
    /// Filled in full.
    Filled,
    /// A cancel has been sent.
    CancelPending,
    /// The venue confirmed the cancel.
    Cancelled,
    /// The venue refused the order.
    Rejected,
}

/// One order.
#[derive(Debug, Clone, Copy)]
pub struct Order {
    pub id: OrderId,
    pub side: Side,
    pub original_qty: Decimal,
    pub limit_price: Decimal,
    pub state: OrderState,
}

impl Order {
    /// The order's invariant: a positive quantity, a price that is not
    /// negative, and while the order is live a remainder above zero and at most
    /// the original quantity.
    pub open spec fn wf(self) -> bool {
        &&& self.original_qty@ > 0
        &&& self.limit_price@ >= 0
        &&& self.original_qty.in_bounds()
        &&& self.fillable().in_bounds()
        &&& match self.state {
            OrderState::Open { remaining } => 0 < remaining@ <= self.original_qty@,
            OrderState::PartiallyFilled { remaining } => 0 < remaining@ <= self.original_qty@,
            _ => true,
        }
    }

    /// Whether the order rests at the venue: `Open` or `PartiallyFilled`.
    pub open spec fn is_live(self) -> bool {
        self.state is Open || self.state is PartiallyFilled
    }

    /// Whether a fill still changes the order: it is live, or `New` with its
    /// acknowledgement outstanding.
    pub open spec fn takes_fills(self) -> bool {
        self.state is New || self.is_live()
    }

    /// The quantity a fill is taken from: the whole order before the venue
    /// acknowledged it, else what is left of it.
    pub open spec fn fillable(self) -> Decimal {
        match self.state {
            OrderState::Open { remaining } => remaining,
            OrderState::PartiallyFilled { remaining } => remaining,
            _ => self.original_qty,
        }
    }

    /// The quantity still to be filled, in units of `10^-28`: the whole order
    /// while `New`, the remainder while live, nothing afterwards.
    pub open spec fn remaining_of(self) -> int {
        if self.takes_fills() {
            self.fillable()@
        } else {
            0
        }
    }

    /// The signed exposure that the order adds to the book of open orders.
    pub open spec fn signed_remaining_of(self) -> int {
        if self.is_live() {
            self.side.sign_of() * self.fillable()@
        } else {
            0
        }
    }

    /// The order after a remainder `left` was recorded.
    pub open spec fn with_remaining(self, left: Decimal) -> Order {
        Order {
            state: if left@ == 0 {
                OrderState::Filled
            } else {
                OrderState::PartiallyFilled { remaining: left }
            },
            ..self
        }
    }

    /// Whether `left` can stand as the remainder after a fill: a decimal
    /// within bounds, not negative and not above what was left before.
    pub open spec fn admits_remaining(self, left: Decimal) -> bool {
        left.in_bounds() && 0 <= left@ <= self.fillable()@
    }

    /// What a fill of `qty` makes of the order: unchanged where the order
    /// takes no fills, an error where the subtraction overflows or its result
    /// is out of range, else the order with the new remainder.
    pub open spec fn after_fill(self, qty: Decimal) -> Result<Order, ArithmeticError> {
        if !self.takes_fills() {
            Ok(self)
        } else {
            match self.fillable().minus(qty) {
                Some(left) => if self.admits_remaining(left) {
                    Ok(self.with_remaining(left))
                } else {
                    Err(ArithmeticError)
                },
                None => Err(ArithmeticError),
            }
        }
    }

    /// The order after the venue's acknowledgement: a `New` order is `Open`
    /// with all of it remaining, any other is unchanged.
    pub open spec fn accepted(self) -> Order {
        if self.state is New {
            Order { state: OrderState::Open { remaining: self.original_qty }, ..self }
        } else {
            self
        }
    }

    /// The order after the venue's refusal: a `New` order is `Rejected`, any
    /// other is unchanged.
    pub open spec fn rejected(self) -> Order {
        if self.state is New {
            Order { state: OrderState::Rejected, ..self }
        } else {
            self
        }
    }

    /// The order with a cancel on its way.
    pub open spec fn cancel_requested(self) -> Order {
        Order { state: OrderState::CancelPending, ..self }
    }

    /// The order with its cancel confirmed.
    pub open spec fn cancel_confirmed(self) -> Order {
        Order { state: OrderState::Cancelled, ..self }
    }

    /// Between zero and the original quantity lies what remains of every
    /// well-formed order.
    pub proof fn lemma_remaining_bounds(self)
        requires
            self.wf(),
        ensures
            0 <= self.remaining_of() <= self.original_qty@,
    {
    }

    /// A new order with the given identifier.
    pub fn with_id(id: OrderId, side: Side, qty: Decimal, price: Decimal) -> (r: Order)
        requires
            qty@ > 0,
            price@ >= 0,
        ensures
            r == (Order { id, side, original_qty: qty, limit_price: price, state: OrderState::New }),
            r.wf(),
    {
        proof {
            use_type_invariant(&qty);
        }
        Order { id, side, original_qty: qty, limit_price: price, state: OrderState::New }
    }

    /// A new order under a freshly drawn identifier.
    pub fn new(side: Side, qty: Decimal, price: Decimal) -> (r: Order)
        requires
            qty@ > 0,
            price@ >= 0,
        ensures
            r == (Order {
                id: r.id,
                side,
                original_qty: qty,
                limit_price: price,
                state: OrderState::New,
            }),
            r.wf(),
    {
        Order::with_id(OrderId(fresh_uuid()), side, qty, price)
    }

    /// The venue acknowledged the order: `New` becomes `Open` with the whole
    /// quantity remaining. In any other state nothing changes.
    pub fn on_accepted(&mut self)
        requires
            old(self).wf(),
        ensures
            final(self).wf(),
            *final(self) == old(self).accepted(),
            final(self).remaining_of() == old(self).remaining_of(),
    {
        proof {
            use_type_invariant(&self.original_qty);
        }
        match self.state {
            OrderState::New => {
                self.state = OrderState::Open { remaining: self.original_qty };
            },
            _ => {},
        }
    }

    /// The venue refused the order: `New` becomes `Rejected`. In any other
    /// state nothing changes.
    pub fn on_rejected(&mut self)
        requires
            old(self).wf(),
        ensures
            final(self).wf(),
            *final(self) == old(self).rejected(),
            final(self).remaining_of() <= old(self).remaining_of(),
    {
        proof {
            use_type_invariant(&self.original_qty);
        }
        match self.state {
            OrderState::New => {
                self.state = OrderState::Rejected;
            },
            _ => {},
        }
    }

    /// Records `left` as what remains after a fill: `Filled` where it is
    /// zero, else `PartiallyFilled`. Returns whether it was recorded; it is
    /// not, and nothing changes, where `left` is negative or above what was
    /// left before.
    pub fn record_remaining(&mut self, left: Decimal) -> (recorded: bool)
        requires
            old(self).wf(),
            old(self).takes_fills(),
        ensures
            final(self).wf(),
            recorded == old(self).admits_remaining(left),
            recorded ==> *final(self) == old(self).with_remaining(left),
            !recorded ==> *final(self) == *old(self),
            final(self).remaining_of() <= old(self).remaining_of(),
    {
        proof {
            use_type_invariant(&left);
            use_type_invariant(&self.original_qty);
        }
        let before = self.fill_base();
        if left.is_negative() || left.gt(&before) {
            return false;
        }
        if left.is_zero() {
            self.state = OrderState::Filled;
        } else {
            self.state = OrderState::PartiallyFilled { remaining: left };
        }
        true
    }

    /// A fill of `fill_qty` arrived. A live order, or a `New` one whose
    /// acknowledgement was lost, has the quantity taken off its remainder and
    /// becomes `PartiallyFilled` or `Filled`; the result is `Ok(true)`. An
    /// order in any other state is left alone: `Ok(false)`. Where the
    /// subtraction fails the order is unchanged and the result is an error.
    /// Where the subtraction is exact the fill is taken, what remains is
    /// what remained less the fill, and the order is `Filled` exactly where
    /// the fill is all that remained.
    pub fn on_fill(&mut self, fill_qty: Decimal) -> (r: Result<bool, ArithmeticError>)
        requires
            old(self).wf(),
            old(self).takes_fills() ==> 0 < fill_qty@ <= old(self).fillable()@,
        ensures
            final(self).wf(),
            match old(self).after_fill(fill_qty) {
                Ok(o) => r == Ok::<bool, ArithmeticError>(old(self).takes_fills()) && *final(self)
                    == o,
                Err(e) => r == Err::<bool, ArithmeticError>(e) && *final(self) == *old(self),
            },
            final(self).remaining_of() <= old(self).remaining_of(),
            old(self).takes_fills() && difference_is_exact(old(self).fillable(), fill_qty) ==> {
                &&& r == Ok::<bool, ArithmeticError>(true)
                &&& final(self).remaining_of() == old(self).remaining_of() - fill_qty@
                &&& final(self).state is Filled <==> fill_qty@ == old(self).fillable()@
                &&& !(final(self).state is Filled) ==> final(self).state
                    is PartiallyFilled
            },
    {
        match self.state {
            OrderState::New | OrderState::Open { .. } | OrderState::PartiallyFilled { .. } => {},
            _ => {
                return Ok(false);
            },
        }
        let before = self.fill_base();
        match before.checked_sub(fill_qty) {
            Some(left) => {
                proof {
                    use_type_invariant(&left);
                }
                if self.record_remaining(left) {
                    Ok(true)
                } else {
                    Err(ArithmeticError)
                }
            },
            None => Err(ArithmeticError),
        }
    }

    /// A cancel was sent for a live order: it becomes `CancelPending`.
    pub fn on_cancel_requested(&mut self)
        requires
            old(self).wf(),
            old(self).is_live(),
        ensures
            final(self).wf(),
            *final(self) == old(self).cancel_requested(),
            final(self).remaining_of() <= old(self).remaining_of(),
    {
        proof {
            use_type_invariant(&self.original_qty);
        }
        self.state = OrderState::CancelPending;
    }

    /// The venue confirmed the cancel: `CancelPending` becomes `Cancelled`.
    pub fn on_cancel_confirmed(&mut self)
        requires
            old(self).wf(),
            old(self).state is CancelPending,
        ensures
            final(self).wf(),
            *final(self) == old(self).cancel_confirmed(),
            final(self).remaining_of() == old(self).remaining_of(),
    {
        proof {
            use_type_invariant(&self.original_qty);
        }
        self.state = OrderState::Cancelled;
    }

    /// Whether the order rests at the venue.
    pub fn live(&self) -> (b: bool)
        ensures
            b == self.is_live(),
    {
        match self.state {
            OrderState::Open { .. } | OrderState::PartiallyFilled { .. } => true,
            _ => false,
        }
    }

    /// The quantity a fill is taken from.
    pub fn fill_base(&self) -> (r: Decimal)
        ensures
            r == self.fillable(),
    {
        match self.state {
            OrderState::Open { remaining } => remaining,
            OrderState::PartiallyFilled { remaining } => remaining,
            _ => self.original_qty,
        }
    }

    /// The quantity still to be filled: the whole order while `New`, the
    /// remainder while live, zero afterwards.
    pub fn remaining_qty(&self) -> (r: Decimal)
        ensures
            r@ == self.remaining_of(),
    {
        match self.state {
            OrderState::Open { remaining } => remaining,
            OrderState::PartiallyFilled { remaining } => remaining,
            OrderState::New => self.original_qty,
            _ => Decimal::zero(),
        }
    }

    /// The remainder of a live order with the sign of its side, zero for any
    /// other order.
    pub fn remaining_signed_qty(&self) -> (r: Decimal)
        ensures
            r@ == self.signed_remaining_of(),
            self.is_live() ==> r == self.side.signed_spec(self.fillable()),
    {
        match self.state {
            OrderState::Open { remaining } => self.side.signed(remaining),
            OrderState::PartiallyFilled { remaining } => self.side.signed(remaining),
            _ => Decimal::zero(),
        }
    }
}

/// Calls `uuid::Uuid::new_v4` and `Uuid::as_u128`. Nothing is claimed of the
/// identifier: it is drawn at random.
#[verifier::external_body]
pub(crate) fn fresh_uuid() -> (id: u128) {
    uuid::Uuid::new_v4().as_u128()
}

} // verus!
