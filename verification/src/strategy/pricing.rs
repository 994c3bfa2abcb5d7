//! Prices and weights of the market maker's quotes.

use crate::decimal::lemma_pow10_positive;
use crate::decimal::pow10;
use crate::decimal::Decimal;
use vstd::prelude::*;

verus! {

/// `px` brought down to a whole multiple of `tick`: `floor(px / tick) *
/// tick`, each step as the decimal arithmetic computes it.
pub open spec fn snapped(px: Decimal, tick: Decimal) -> Option<Decimal> {
    match px.over(tick) {
        Some(steps) => steps.floored().times(tick),
        None => None,
    }
}

/// The change from `b` to `a` as a fraction of `b`: `(a - b) / b`, and zero
/// where `b` is zero.
pub open spec fn pct_change_spec(a: Decimal, b: Decimal) -> Option<Decimal> {
    if b@ == 0 {
        Some(Decimal::of(0, 0))
    } else {
        match a.minus(b) {
            Some(d) => d.over(b),
            None => None,
        }
    }
}

/// The weights of bid and ask before the flow is looked at: the bid's is `1
/// + 0.5 * delta`, the ask's `2` less the bid's, each held between 0 and 2.
pub open spec fn inventory_ratios_spec(delta: Decimal) -> Option<(Decimal, Decimal)> {
    match delta.times(Decimal::of(5, 1)) {
        Some(lean) => match Decimal::of(10, 1).plus(lean) {
            Some(raw) => {
                let bid = raw.clamped(Decimal::of(0, 0), Decimal::of(2, 0));
                match Decimal::of(20, 1).minus(bid) {
                    Some(rest) => Some((bid, rest.clamped(Decimal::of(0, 0), Decimal::of(2, 0)))),
                    None => None,
                }
            },
            None => None,
        },
        None => None,
    }
}

/// The middle of best bid and best ask: `(bid + ask) / 2`.
pub open spec fn mid_spec(best_bid: Decimal, best_ask: Decimal) -> Option<Decimal> {
    match best_bid.plus(best_ask) {
        Some(sum) => sum.over(Decimal::of(2, 0)),
        None => None,
    }
}

/// The tick of the quotes, `0.0000001`.
pub open spec fn tick_spec() -> Decimal {
    Decimal::of(1, 7)
}

/// Half the quoted spread around `mid`: `mid * 0.0005 / 2`.
pub open spec fn half_spread_spec(mid: Decimal) -> Option<Decimal> {
    match mid.times(Decimal::of(5, 4)) {
        Some(spread) => spread.over(Decimal::of(2, 0)),
        None => None,
    }
}

/// The bid to quote: the lower of `mid` less half the spread and one tick
/// under the best bid, each on the tick grid.
pub open spec fn bid_price_spec(mid: Decimal, half: Decimal, best_bid: Decimal) -> Option<Decimal> {
    match (mid.minus(half), best_bid.minus(tick_spec())) {
        (Some(inner), Some(outer)) => match (
            snapped(inner, tick_spec()),
            snapped(outer, tick_spec()),
        ) {
            (Some(a), Some(b)) => Some(a.least(b)),
            _ => None,
        },
        _ => None,
    }
}

/// The ask to quote: the higher of `mid` plus half the spread and one tick
/// over the best ask, each on the tick grid.
pub open spec fn ask_price_spec(mid: Decimal, half: Decimal, best_ask: Decimal) -> Option<Decimal> {
    match (mid.plus(half), best_ask.plus(tick_spec())) {
        (Some(inner), Some(outer)) => match (
            snapped(inner, tick_spec()),
            snapped(outer, tick_spec()),
        ) {
            (Some(a), Some(b)) => Some(a.greatest(b)),
            _ => None,
        },
        _ => None,
    }
}

/// Bid and ask to quote around `mid`.
pub open spec fn quote_prices_spec(mid: Decimal, best_bid: Decimal, best_ask: Decimal) -> Option<
    (Decimal, Decimal),
> {
    match half_spread_spec(mid) {
        Some(half) => match (
            bid_price_spec(mid, half, best_bid),
            ask_price_spec(mid, half, best_ask),
        ) {
            (Some(bid), Some(ask)) => Some((bid, ask)),
            _ => None,
        },
        None => None,
    }
}

/// `px` brought down to a whole multiple of `tick`, or `None` where the
/// arithmetic fails, as it does for a tick of zero.
pub fn snap_to_tick(px: Decimal, tick: Decimal) -> (r: Option<Decimal>)
    ensures
        r == snapped(px, tick),
{
    match px.checked_div(tick) {
        Some(steps) => steps.floor().checked_mul(tick),
        None => None,
    }
}

/// The change from `b` to `a` as a fraction of `b`, zero where `b` is
/// zero, or `None` where the arithmetic fails.
pub fn pct_change(a: Decimal, b: Decimal) -> (r: Option<Decimal>)
    ensures
        r == pct_change_spec(a, b),
{
    if b.is_zero() {
        Some(Decimal::zero())
    } else {
        match a.checked_sub(b) {
            Some(d) => d.checked_div(b),
            None => None,
        }
    }
}

/// The weights of bid and ask that the inventory asks for, or `None` where
/// the arithmetic fails. Both lie between 0 and 2.
pub fn inventory_ratios(delta: Decimal) -> (r: Option<(Decimal, Decimal)>)
    ensures
        r == inventory_ratios_spec(delta),
        r matches Some((bid, ask)) ==> 0 <= bid@ <= 2 * pow10(28) && 0 <= ask@ <= 2 * pow10(28),
{
    let zero = Decimal::new(0, 0);
    let two = Decimal::new(2, 0);
    proof {
        lemma_pow10_positive(28);
        assert(0 * pow10(28) == 0) by (nonlinear_arith);
    }
    let lean = match delta.checked_mul(Decimal::new(5, 1)) {
        Some(x) => x,
        None => {
            return None;
        },
    };
    let raw = match Decimal::new(10, 1).checked_add(lean) {
        Some(x) => x,
        None => {
            return None;
        },
    };
    let bid = raw.clamp(zero, two);
    match Decimal::new(20, 1).checked_sub(bid) {
        Some(rest) => Some((bid, rest.clamp(zero, two))),
        None => None,
    }
}

/// The middle of best bid and best ask, or `None` where the arithmetic
/// fails.
pub fn mid_price(best_bid: Decimal, best_ask: Decimal) -> (r: Option<Decimal>)
    ensures
        r == mid_spec(best_bid, best_ask),
{
    match best_bid.checked_add(best_ask) {
        Some(sum) => sum.checked_div(Decimal::new(2, 0)),
        None => None,
    }
}

/// Bid and ask to quote around `mid`, or `None` where the arithmetic
/// fails.
pub fn quote_prices(mid: Decimal, best_bid: Decimal, best_ask: Decimal) -> (r: Option<
    (Decimal, Decimal),
>)
    ensures
        r == quote_prices_spec(mid, best_bid, best_ask),
{
    let tick = Decimal::new(1, 7);
    let half = match mid.checked_mul(Decimal::new(5, 4)) {
        Some(spread) => match spread.checked_div(Decimal::new(2, 0)) {
            Some(h) => h,
            None => {
                return None;
            },
        },
        None => {
            return None;
        },
    };
    let bid = match (mid.checked_sub(half), best_bid.checked_sub(tick)) {
        (Some(inner), Some(outer)) => match (snap_to_tick(inner, tick), snap_to_tick(outer, tick)) {
            (Some(a), Some(b)) => a.min(b),
            _ => {
                return None;
            },
        },
        _ => {
            return None;
        },
    };
    let ask = match (mid.checked_add(half), best_ask.checked_add(tick)) {
        (Some(inner), Some(outer)) => match (snap_to_tick(inner, tick), snap_to_tick(outer, tick)) {
            (Some(a), Some(b)) => a.max(b),
            _ => {
                return None;
            },
        },
        _ => {
            return None;
        },
    };
    Some((bid, ask))
}

} // verus!
