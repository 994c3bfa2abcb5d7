//! The figures of the terminal view: the orders and the position, and a
//! quote sketched from the touch and delta.

use crate::decimal::ArithmeticError;
use crate::decimal::Decimal;
use crate::oms::snapshot::OmsSnapshot;
use crate::strategy::pricing::mid_price;
use crate::strategy::pricing::mid_spec;
use crate::strategy::pricing::snap_to_tick;
use crate::strategy::pricing::snapped;
use vstd::prelude::*;

verus! {

/// The figures sketched from a touch and delta.
#[derive(Debug, Clone, Copy)]
pub struct Sketch {
    pub mid: Decimal,
    pub spread: Decimal,
    pub skew: Decimal,
    pub bid: Decimal,
    pub ask: Decimal,
}

/// The sketch for a touch and delta: the mid; a spread of twenty times the
/// touch's width; a skew of `0.05` times delta; and bid and ask half a
/// spread under and over the mid, moved by the skew and brought down to
/// whole numbers. `None` where the arithmetic fails.
pub open spec fn sketch_spec(best_bid: Decimal, best_ask: Decimal, delta: Decimal) -> Option<Sketch> {
    match (mid_spec(best_bid, best_ask), best_ask.minus(best_bid), delta.times(Decimal::of(5, 2))) {
        (Some(mid), Some(width), Some(skew)) => match Decimal::of(20, 0).times(width) {
            Some(spread) => match spread.over(Decimal::of(2, 0)) {
                Some(half) => match (mid.minus(half), mid.plus(half)) {
                    (Some(low), Some(high)) => match (low.plus(skew), high.plus(skew)) {
                        (Some(raw_bid), Some(raw_ask)) => match (
                            snapped(raw_bid, Decimal::of(1, 0)),
                            snapped(raw_ask, Decimal::of(1, 0)),
                        ) {
                            (Some(bid), Some(ask)) => Some(Sketch { mid, spread, skew, bid, ask }),
                            _ => None,
                        },
                        _ => None,
                    },
                    _ => None,
                },
                None => None,
            },
            None => None,
        },
        _ => None,
    }
}

/// The sketch for a touch and delta, or `None` where the arithmetic fails.
pub fn sketch(best_bid: Decimal, best_ask: Decimal, delta: Decimal) -> (r: Option<Sketch>)
    ensures
        r == sketch_spec(best_bid, best_ask, delta),
{
    let mid = mid_price(best_bid, best_ask);
    let width = best_ask.checked_sub(best_bid);
    let skew = delta.checked_mul(Decimal::new(5, 2));
    let (mid, width, skew) = match (mid, width, skew) {
        (Some(m), Some(w), Some(s)) => (m, w, s),
        _ => {
            return None;
        },
    };
    let spread = match Decimal::new(20, 0).checked_mul(width) {
        Some(s) => s,
        None => {
            return None;
        },
    };
    let half = match spread.checked_div(Decimal::new(2, 0)) {
        Some(h) => h,
        None => {
            return None;
        },
    };
    let (low, high) = match (mid.checked_sub(half), mid.checked_add(half)) {
        (Some(l), Some(h)) => (l, h),
        _ => {
            return None;
        },
    };
    let (raw_bid, raw_ask) = match (low.checked_add(skew), high.checked_add(skew)) {
        (Some(b), Some(a)) => (b, a),
        _ => {
            return None;
        },
    };
    let one = Decimal::new(1, 0);
    match (snap_to_tick(raw_bid, one), snap_to_tick(raw_ask, one)) {
        (Some(bid), Some(ask)) => Some(Sketch { mid, spread, skew, bid, ask }),
        _ => None,
    }
}

/// What the terminal view shows.
#[derive(Debug)]
pub struct TuiApp {
    pub snapshot: Option<OmsSnapshot>,
    pub mid: Decimal,
    pub spread: Decimal,
    pub skew: Decimal,
    pub bid: Decimal,
    pub ask: Decimal,
}

impl TuiApp {
    /// A view with nothing to show yet: no snapshot, and zero all over.
    pub fn new() -> (r: TuiApp)
        ensures
            r.snapshot.is_none(),
            r.mid == Decimal::of(0, 0),
            r.spread == Decimal::of(0, 0),
            r.skew == Decimal::of(0, 0),
            r.bid == Decimal::of(0, 0),
            r.ask == Decimal::of(0, 0),
    {
        TuiApp {
            snapshot: None,
            mid: Decimal::zero(),
            spread: Decimal::zero(),
            skew: Decimal::zero(),
            bid: Decimal::zero(),
            ask: Decimal::zero(),
        }
    }

    /// Takes the figures sketched from a touch and delta. Where the
    /// arithmetic fails the figures stay and the result is an error.
    pub fn update(&mut self, best_bid: Decimal, best_ask: Decimal, delta: Decimal) -> (r: Result<
        (),
        ArithmeticError,
    >)
        ensures
            final(self).snapshot == old(self).snapshot,
            match sketch_spec(best_bid, best_ask, delta) {
                Some(s) => r.is_ok() && final(self).mid == s.mid && final(self).spread == s.spread
                    && final(self).skew == s.skew && final(self).bid == s.bid && final(self).ask
                    == s.ask,
                None => r.is_err() && final(self).mid == old(self).mid && final(self).spread
                    == old(self).spread && final(self).skew == old(self).skew && final(self).bid
                    == old(self).bid && final(self).ask == old(self).ask,
            },
    {
        match sketch(best_bid, best_ask, delta) {
            Some(s) => {
                self.mid = s.mid;
                self.spread = s.spread;
                self.skew = s.skew;
                self.bid = s.bid;
                self.ask = s.ask;
                Ok(())
            },
            None => Err(ArithmeticError),
        }
    }
}

} // verus!
