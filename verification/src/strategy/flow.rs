//! Reading the direction of the market off the mids and the trade tape.

use crate::decimal::Decimal;
use crate::market::types::AggressorSide;
use crate::market::types::Trade;
use crate::strategy::pricing::pct_change;
use crate::strategy::pricing::pct_change_spec;
use std::collections::VecDeque;
use vstd::prelude::*;

verus! {

/// How many trades and how many mids are looked at.
pub const FLOW_WINDOW: usize = 12;

/// How long after toxic flow the strategy stays out, in milliseconds.
pub const TOXIC_COOLDOWN_MS: u64 = 6_000;

/// The direction of the flow.
#[derive(Debug, Clone, Copy, PartialEq, Eq, Structural)]
pub enum Flow {
    /// Buyers press: prices rise.
    Up,
    /// Sellers press: prices fall.
    Down,
    /// Neither.
    Neutral,
    /// Neither now, but toxic flow was seen a moment ago.
    Cooldown,
}

/// The move of the mid, as a fraction, from which on the flow counts as
/// toxic: `0.0010`.
pub open spec fn min_pct_move() -> Decimal {
    Decimal::of(10, 4)
}

/// The share of the notional from which on one side counts as pressing:
/// `0.65`.
pub open spec fn imbalance_threshold() -> Decimal {
    Decimal::of(65, 2)
}

/// A window after one more item: the oldest gives way once the window is
/// full.
pub open spec fn pushed<T>(window: Seq<T>, item: T) -> Seq<T> {
    if window.len() >= FLOW_WINDOW {
        window.drop_first().push(item)
    } else {
        window.push(item)
    }
}

/// The notional bought and the notional sold by the aggressors of
/// `trades`, summed from the oldest on; `None` where the arithmetic fails.
pub open spec fn notionals(trades: Seq<Trade>) -> Option<(Decimal, Decimal)>
    decreases trades.len(),
{
    if trades.len() == 0 {
        Some((Decimal::of(0, 0), Decimal::of(0, 0)))
    } else {
        match (notionals(trades.drop_last()), trades.last().price.times(trades.last().qty)) {
            (Some((buy, sell)), Some(notional)) => match trades.last().side {
                AggressorSide::Buy => match buy.plus(notional) {
                    Some(b) => Some((b, sell)),
                    None => None,
                },
                AggressorSide::Sell => match sell.plus(notional) {
                    Some(s) => Some((buy, s)),
                    None => None,
                },
            },
            _ => None,
        }
    }
}

/// The drift of the mid over the window: the change from the oldest mid to
/// the newest, zero for an empty window.
pub open spec fn drift_spec(mids: Seq<Decimal>) -> Option<Decimal> {
    if mids.len() == 0 {
        Some(Decimal::of(0, 0))
    } else {
        pct_change_spec(mids.last(), mids.first())
    }
}

/// The flow that the shares of buyers and sellers in the notional show: up
/// where the buyers' is `0.65` or more, down where the sellers' is, else
/// neutral.
pub open spec fn share_flow(buy_share: Decimal, sell_share: Decimal) -> Flow {
    if buy_share@ >= imbalance_threshold()@ {
        Flow::Up
    } else if sell_share@ >= imbalance_threshold()@ {
        Flow::Down
    } else {
        Flow::Neutral
    }
}

/// The flow that the notional bought and sold shows: that of their shares
/// in the total, and neutral without any notional.
pub open spec fn imbalance_flow(buy: Decimal, sell: Decimal) -> Option<Flow> {
    match buy.plus(sell) {
        None => None,
        Some(total) => if total@ == 0 {
            Some(Flow::Neutral)
        } else {
            match (buy.over(total), sell.over(total)) {
                (Some(b), Some(s)) => Some(share_flow(b, s)),
                _ => None,
            }
        },
    }
}

/// The flow before the cooldown is looked at. First the drift: a move of
/// `0.0010` or more is up or down by its sign. Then, with a full window of
/// trades, the signed notional: where it is not zero and has the sign of a
/// drift that is not zero, the flow goes with it. Then the shares of the
/// notional. Without a full window of trades the flow is neutral.
pub open spec fn raw_flow(drift: Decimal, full: bool, buy: Decimal, sell: Decimal) -> Option<Flow> {
    if drift@ >= min_pct_move()@ {
        Some(Flow::Up)
    } else if -drift@ >= min_pct_move()@ {
        Some(Flow::Down)
    } else if !full {
        Some(Flow::Neutral)
    } else if drift@ > 0 && buy@ > sell@ {
        Some(Flow::Up)
    } else if drift@ < 0 && buy@ < sell@ {
        Some(Flow::Down)
    } else {
        imbalance_flow(buy, sell)
    }
}

/// Whether toxic flow was seen less than the cooldown ago.
pub open spec fn cooling(last_toxic: Option<u64>, now_ms: u64) -> bool {
    match last_toxic {
        Some(t) => now_ms < t || now_ms - t < TOXIC_COOLDOWN_MS,
        None => false,
    }
}

/// The flow that the strategy acts on: the raw flow, but `Cooldown` in
/// place of `Neutral` while the cooldown runs.
pub open spec fn effective_flow(raw: Flow, last_toxic: Option<u64>, now_ms: u64) -> Flow {
    if raw == Flow::Neutral && cooling(last_toxic, now_ms) {
        Flow::Cooldown
    } else {
        raw
    }
}

/// When toxic flow was last seen, after a raw flow was read at `now_ms`.
pub open spec fn toxic_after(raw: Flow, last_toxic: Option<u64>, now_ms: u64) -> Option<u64> {
    if raw == Flow::Up || raw == Flow::Down {
        Some(now_ms)
    } else {
        last_toxic
    }
}

/// Puts one more item into a window of at most twelve.
pub fn push_window<T>(window: &mut VecDeque<T>, item: T)
    requires
        old(window)@.len() <= FLOW_WINDOW,
    ensures
        final(window)@ == pushed(old(window)@, item),
        final(window)@.len() <= FLOW_WINDOW,
{
    if window.len() >= FLOW_WINDOW {
        let _ = window.pop_front();
    }
    window.push_back(item);
}

/// The notional bought and the notional sold over a window of trades, or
/// `None` where the arithmetic fails.
pub fn sum_notionals(trades: &VecDeque<Trade>) -> (r: Option<(Decimal, Decimal)>)
    ensures
        r == notionals(trades@),
{
    let mut buy = Decimal::zero();
    let mut sell = Decimal::zero();
    let mut i: usize = 0;
    while i < trades.len()
        invariant
            i <= trades.len(),
            notionals(trades@.take(i as int)) == Some((buy, sell)),
        decreases trades.len() - i,
    {
        assert(trades@.take(i + 1).drop_last() =~= trades@.take(i as int));
        assert(trades@.take(i + 1).last() == trades@[i as int]);
        let t = &trades[i];
        let notional = match t.price.checked_mul(t.qty) {
            Some(n) => n,
            None => {
                proof {
                    lemma_notionals_fail_onward(trades@, i + 1);
                }
                return None;
            },
        };
        match t.side {
            AggressorSide::Buy => match buy.checked_add(notional) {
                Some(b) => {
                    buy = b;
                },
                None => {
                    proof {
                        lemma_notionals_fail_onward(trades@, i + 1);
                    }
                    return None;
                },
            },
            AggressorSide::Sell => match sell.checked_add(notional) {
                Some(s) => {
                    sell = s;
                },
                None => {
                    proof {
                        lemma_notionals_fail_onward(trades@, i + 1);
                    }
                    return None;
                },
            },
        }
        i = i + 1;
    }
    assert(trades@.take(i as int) =~= trades@);
    Some((buy, sell))
}

/// Once the sums have failed for a prefix of the trades, they fail for all
/// of them.
pub proof fn lemma_notionals_fail_onward(trades: Seq<Trade>, n: int)
    requires
        0 <= n <= trades.len(),
        notionals(trades.take(n)).is_none(),
    ensures
        notionals(trades).is_none(),
    decreases trades.len() - n,
{
    if n < trades.len() {
        assert(trades.take(n + 1).drop_last() =~= trades.take(n));
        lemma_notionals_fail_onward(trades, n + 1);
    } else {
        assert(trades.take(n) =~= trades);
    }
}

/// The flow that the shares of buyers and sellers in the notional show.
pub fn flow_from_shares(buy_share: Decimal, sell_share: Decimal) -> (r: Flow)
    ensures
        r == share_flow(buy_share, sell_share),
{
    let threshold = Decimal::new(65, 2);
    if buy_share.ge(&threshold) {
        Flow::Up
    } else if sell_share.ge(&threshold) {
        Flow::Down
    } else {
        Flow::Neutral
    }
}

/// The flow that the notional bought and sold shows, or `None` where the
/// arithmetic fails.
pub fn flow_from_imbalance(buy: Decimal, sell: Decimal) -> (r: Option<Flow>)
    ensures
        r == imbalance_flow(buy, sell),
{
    let total = match buy.checked_add(sell) {
        Some(t) => t,
        None => {
            return None;
        },
    };
    if total.is_zero() {
        return Some(Flow::Neutral);
    }
    match (buy.checked_div(total), sell.checked_div(total)) {
        (Some(b), Some(s)) => Some(flow_from_shares(b, s)),
        _ => None,
    }
}

/// The flow before the cooldown is looked at, given the drift of the mid,
/// whether the window of trades is full, and the notional bought and sold.
pub fn classify(drift: Decimal, full: bool, buy: Decimal, sell: Decimal) -> (r: Option<Flow>)
    ensures
        r == raw_flow(drift, full, buy, sell),
{
    let threshold = Decimal::new(10, 4);
    if drift.ge(&threshold) {
        Some(Flow::Up)
    } else if drift.neg().ge(&threshold) {
        Some(Flow::Down)
    } else if !full {
        Some(Flow::Neutral)
    } else if drift.is_positive() && buy.gt(&sell) {
        Some(Flow::Up)
    } else if drift.is_negative() && buy.lt(&sell) {
        Some(Flow::Down)
    } else {
        flow_from_imbalance(buy, sell)
    }
}

/// The drift of the mid from `oldest` to `newest`.
pub fn drift(newest: Decimal, oldest: Decimal) -> (r: Option<Decimal>)
    ensures
        r == pct_change_spec(newest, oldest),
{
    pct_change(newest, oldest)
}

/// Whether toxic flow was seen less than the cooldown ago.
pub fn in_cooldown(last_toxic: Option<u64>, now_ms: u64) -> (b: bool)
    ensures
        b == cooling(last_toxic, now_ms),
{
    match last_toxic {
        Some(t) => now_ms < t || now_ms - t < TOXIC_COOLDOWN_MS,
        None => false,
    }
}

} // verus!
