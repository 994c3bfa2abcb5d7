//! Position accounting: net quantity, average entry price and realised
//! profit.

use crate::decimal::ArithmeticError;
use crate::decimal::Decimal;
use vstd::prelude::*;

verus! {

/// The trader's position in the one instrument.
#[derive(Debug, Clone, Copy)]
pub struct Position {
    pub net_qty: Decimal,
    pub avg_price: Decimal,
    pub realized_pnl: Decimal,
}

/// The volume-weighted average price `(avg * |net| + price * |qty|) /
/// |total|`, each step as the decimal arithmetic computes it.
pub open spec fn vwap_spec(
    avg: Decimal,
    net: Decimal,
    price: Decimal,
    qty: Decimal,
    total: Decimal,
) -> Option<Decimal> {
    match (avg.times(net.magnitude()), price.times(qty.magnitude())) {
        (Some(held), Some(added)) => match held.plus(added) {
            Some(cost) => cost.over(total.magnitude()),
            None => None,
        },
        _ => None,
    }
}

/// The profit realised by closing: `min(|net|, |qty|) * (price - avg) *
/// sign(net)`, each step as the decimal arithmetic computes it.
pub open spec fn closing_pnl_spec(avg: Decimal, net: Decimal, price: Decimal, qty: Decimal) -> Option<
    Decimal,
> {
    let closing = if net.magnitude()@ <= qty.magnitude()@ {
        net.magnitude()
    } else {
        qty.magnitude()
    };
    match price.minus(avg) {
        Some(edge) => match closing.times(edge) {
            Some(gross) => gross.times(net.signum_of()),
            None => None,
        },
        None => None,
    }
}

/// The volume-weighted average price after a fill that adds to the
/// position, or `None` where the arithmetic fails.
pub fn vwap(avg: Decimal, net: Decimal, price: Decimal, qty: Decimal, total: Decimal) -> (r: Option<
    Decimal,
>)
    ensures
        r == vwap_spec(avg, net, price, qty, total),
{
    let held = avg.checked_mul(net.abs());
    let added = price.checked_mul(qty.abs());
    match (held, added) {
        (Some(h), Some(a)) => match h.checked_add(a) {
            Some(cost) => cost.checked_div(total.abs()),
            None => None,
        },
        _ => None,
    }
}

/// The profit realised by a fill that closes part or all of the position,
/// or `None` where the arithmetic fails.
pub fn closing_pnl(avg: Decimal, net: Decimal, price: Decimal, qty: Decimal) -> (r: Option<Decimal>)
    ensures
        r == closing_pnl_spec(avg, net, price, qty),
{
    let closing = net.abs().min(qty.abs());
    match price.checked_sub(avg) {
        Some(edge) => match closing.checked_mul(edge) {
            Some(gross) => gross.checked_mul(net.signum()),
            None => None,
        },
        None => None,
    }
}

impl Position {
    /// The position's invariant: a flat position has no average price.
    pub open spec fn wf(self) -> bool {
        self.net_qty@ == 0 ==> self.avg_price@ == 0
    }

    /// Whether a fill of `qty` adds to the position: the position is flat, or
    /// both have the same sign.
    pub open spec fn adds_to(self, qty: Decimal) -> bool {
        ||| self.net_qty@ == 0
        ||| (self.net_qty@ > 0 && qty@ > 0)
        ||| (self.net_qty@ < 0 && qty@ < 0)
    }

    /// The position after a fill added to it: the new net quantity at the new
    /// average price, or at zero where the position is flat.
    pub open spec fn extended_spec(self, net: Decimal, average: Decimal) -> Position {
        Position {
            net_qty: net,
            avg_price: if net@ == 0 {
                Decimal::of(0, 0)
            } else {
                average
            },
            realized_pnl: self.realized_pnl,
        }
    }

    /// The position after a fill at `price` closed part or all of it, or
    /// turned it over: flat at no price, turned over at the fill's price, else
    /// at the price it had.
    pub open spec fn reduced_spec(self, net: Decimal, realized: Decimal, price: Decimal) -> Position {
        Position {
            net_qty: net,
            avg_price: if net@ == 0 {
                Decimal::of(0, 0)
            } else if (net@ > 0) != (self.net_qty@ > 0) {
                price
            } else {
                self.avg_price
            },
            realized_pnl: realized,
        }
    }

    /// The position after a fill of the signed quantity `qty` at `price`, or
    /// `None` where a step of the decimal arithmetic fails.
    pub open spec fn after_fill(self, qty: Decimal, price: Decimal) -> Option<Position> {
        match self.net_qty.plus(qty) {
            None => None,
            Some(net) => if self.adds_to(qty) {
                if net@ == 0 {
                    Some(self.extended_spec(net, self.avg_price))
                } else {
                    match vwap_spec(self.avg_price, self.net_qty, price, qty, net) {
                        Some(average) => Some(self.extended_spec(net, average)),
                        None => None,
                    }
                }
            } else {
                match closing_pnl_spec(self.avg_price, self.net_qty, price, qty) {
                    Some(pnl) => match self.realized_pnl.plus(pnl) {
                        Some(realized) => Some(self.reduced_spec(net, realized, price)),
                        None => None,
                    },
                    None => None,
                }
            }
        }
    }

    /// A flat position without profit or loss.
    pub fn new() -> (r: Position)
        ensures
            r.wf(),
            r.net_qty == Decimal::of(0, 0),
            r.avg_price == Decimal::of(0, 0),
            r.realized_pnl == Decimal::of(0, 0),
            r.net_qty@ == 0,
            r.avg_price@ == 0,
            r.realized_pnl@ == 0,
    {
        Position {
            net_qty: Decimal::zero(),
            avg_price: Decimal::zero(),
            realized_pnl: Decimal::zero(),
        }
    }

    /// Whether a fill of `qty` adds to the position.
    pub fn same_direction(&self, qty: Decimal) -> (b: bool)
        ensures
            b == self.adds_to(qty),
    {
        self.net_qty.is_zero() || (self.net_qty.is_positive() && qty.is_positive()) || (
        self.net_qty.is_negative() && qty.is_negative())
    }

    /// The position once a fill has added to it, given the new net quantity
    /// and the new average price.
    pub fn extended(&self, net: Decimal, average: Decimal) -> (r: Position)
        ensures
            r == self.extended_spec(net, average),
            r.wf(),
    {
        Position {
            net_qty: net,
            avg_price: if net.is_zero() {
                Decimal::zero()
            } else {
                average
            },
            realized_pnl: self.realized_pnl,
        }
    }

    /// The position once a fill at `price` has reduced it, closed it or
    /// turned it over, given the new net quantity and the new realised profit.
    pub fn reduced(&self, net: Decimal, realized: Decimal, price: Decimal) -> (r: Position)
        ensures
            r == self.reduced_spec(net, realized, price),
            r.wf(),
    {
        let average = if net.is_zero() {
            Decimal::zero()
        } else if net.is_positive() != self.net_qty.is_positive() {
            price
        } else {
            self.avg_price
        };
        Position { net_qty: net, avg_price: average, realized_pnl: realized }
    }

    /// Books a fill of the signed quantity `qty` at `price`. A fill in the
    /// position's direction moves the average price; one against it realises
    /// profit on the quantity it closes. Where a step of the arithmetic fails
    /// the position is unchanged and the result is an error.
    pub fn apply_fill(&mut self, qty: Decimal, price: Decimal) -> (r: Result<(), ArithmeticError>)
        requires
            old(self).wf(),
        ensures
            final(self).wf(),
            match old(self).after_fill(qty, price) {
                Some(p) => r.is_ok() && *final(self) == p,
                None => r.is_err() && *final(self) == *old(self),
            },
    {
        let net = match self.net_qty.checked_add(qty) {
            Some(n) => n,
            None => {
                return Err(ArithmeticError);
            },
        };
        if self.same_direction(qty) {
            if net.is_zero() {
                *self = self.extended(net, self.avg_price);
            } else {
                match vwap(self.avg_price, self.net_qty, price, qty, net) {
                    Some(average) => {
                        *self = self.extended(net, average);
                    },
                    None => {
                        return Err(ArithmeticError);
                    },
                }
            }
        } else {
            let pnl = match closing_pnl(self.avg_price, self.net_qty, price, qty) {
                Some(p) => p,
                None => {
                    return Err(ArithmeticError);
                },
            };
            match self.realized_pnl.checked_add(pnl) {
                Some(realized) => {
                    *self = self.reduced(net, realized, price);
                },
                None => {
                    return Err(ArithmeticError);
                },
            }
        }
        Ok(())
    }
}

} // verus!
