//! The market maker: on every book snapshot it reads the flow, prices a bid
//! and an ask around the mid, sizes them by margin and inventory, and
//! decides whether the resting quotes are to be replaced.

use crate::decimal::ArithmeticError;
use crate::decimal::Decimal;
use crate::market::types::OrderBook;
use crate::market::types::Trade;
use crate::oms::event::OmsEvent;
use crate::oms::order::Side;
use crate::strategy::flow::classify;
use crate::strategy::flow::cooling;
use crate::strategy::flow::drift_spec;
use crate::strategy::flow::effective_flow;
use crate::strategy::flow::in_cooldown;
use crate::strategy::flow::notionals;
use crate::strategy::flow::push_window;
use crate::strategy::flow::pushed;
use crate::strategy::flow::raw_flow;
use crate::strategy::flow::sum_notionals;
use crate::strategy::flow::toxic_after;
use crate::strategy::flow::Flow;
use crate::strategy::flow::FLOW_WINDOW;
use crate::strategy::pricing::inventory_ratios;
use crate::strategy::pricing::inventory_ratios_spec;
use crate::strategy::pricing::mid_price;
use crate::strategy::pricing::mid_spec;
use crate::strategy::pricing::pct_change;
use crate::strategy::pricing::pct_change_spec;
use crate::strategy::pricing::quote_prices;
use crate::strategy::pricing::quote_prices_spec;
use std::collections::VecDeque;
use vstd::prelude::*;

verus! {

/// After how long resting quotes are replaced whatever the prices did, in
/// milliseconds.
pub const REFRESH_INTERVAL_MS: u64 = 10_000;

/// The smallest notional an order may have: `10`.
pub open spec fn min_notional() -> Decimal {
    Decimal::of(10, 0)
}

/// The share of the available margin that is put to work: `0.85`.
pub open spec fn safety_margin() -> Decimal {
    Decimal::of(85, 2)
}

/// The largest quantity quoted on both sides together: `580`.
pub open spec fn max_abs_qty() -> Decimal {
    Decimal::of(580, 0)
}

/// Best bid, best ask and the mid between them.
#[derive(Debug, Clone, Copy)]
pub struct Touch {
    pub best_bid: Decimal,
    pub best_ask: Decimal,
    pub mid: Decimal,
}

/// Why no quotes go out.
#[derive(Debug, Clone, Copy, PartialEq, Eq, Structural)]
pub enum SkipReason {
    /// The bid to quote is not below the ask to quote.
    Crossed,
    /// Flow and inventory leave no side to quote.
    NoWeight,
    /// Both sides fall short of the smallest notional.
    TooSmall,
    /// The resting quotes are still good.
    NotDue,
}

/// A bid and an ask with their quantities; a quantity of zero leaves the
/// side out.
#[derive(Debug, Clone, Copy)]
pub struct Quotes {
    pub bid: Decimal,
    pub ask: Decimal,
    pub bid_qty: Decimal,
    pub ask_qty: Decimal,
}

/// What the market maker decides on a snapshot.
#[derive(Debug, Clone, Copy)]
pub enum QuoteDecision {
    /// Leave things as they are.
    Skip(SkipReason),
    /// Cancel what rests and place these quotes.
    Refresh(Quotes),
}

/// The weights of bid and ask once the flow has had its say: toxic flow
/// takes out the side it runs against, a cooldown both.
pub open spec fn gated(flow: Flow, bid_ratio: Decimal, ask_ratio: Decimal) -> (Decimal, Decimal) {
    match flow {
        Flow::Up => (bid_ratio, Decimal::of(0, 0)),
        Flow::Down => (Decimal::of(0, 0), ask_ratio),
        Flow::Cooldown => (Decimal::of(0, 0), Decimal::of(0, 0)),
        Flow::Neutral => (bid_ratio, ask_ratio),
    }
}

/// The weights of bid and ask, brought to sum 1. The outer `None` is a
/// failure of the arithmetic, the inner one weights that sum to zero, as
/// they do in a cooldown.
pub open spec fn weights_spec(flow: Flow, delta: Decimal) -> Option<Option<(Decimal, Decimal)>> {
    match inventory_ratios_spec(delta) {
        _ if flow == Flow::Cooldown => Some(None),
        None => None,
        Some((bid_ratio, ask_ratio)) => {
            let (bid, ask) = gated(flow, bid_ratio, ask_ratio);
            match bid.plus(ask) {
                None => None,
                Some(sum) => if sum@ == 0 {
                    Some(None)
                } else {
                    match (bid.over(sum), ask.over(sum)) {
                        (Some(b), Some(a)) => Some(Some((b, a))),
                        _ => None,
                    }
                },
            }
        },
    }
}

/// A quantity, or zero where its notional is below the smallest.
pub open spec fn unless_small(qty: Decimal, notional: Decimal) -> Decimal {
    if notional@ < min_notional()@ {
        Decimal::of(0, 0)
    } else {
        qty
    }
}

/// Whether a change, as a fraction, is a move: more than `0.0010` either
/// way.
pub open spec fn is_move(change: Decimal) -> bool {
    change@ > Decimal::of(10, 4)@ || -change@ > Decimal::of(10, 4)@
}

/// The quantity for one side: its weight of `max_total`, at most what the
/// budget buys at `price`, and zero where that is worth less than the
/// smallest notional.
pub open spec fn side_qty_spec(
    max_total: Decimal,
    weight: Decimal,
    budget: Decimal,
    price: Decimal,
) -> Option<Decimal> {
    match (max_total.times(weight), budget.over(price)) {
        (Some(want), Some(cap)) => match want.least(cap).times(price) {
            Some(notional) => Some(unless_small(want.least(cap), notional)),
            None => None,
        },
        _ => None,
    }
}

/// The quantities of bid and ask.
pub open spec fn sizes_spec(
    budget: Decimal,
    mid: Decimal,
    bid: Decimal,
    ask: Decimal,
    bid_weight: Decimal,
    ask_weight: Decimal,
) -> Option<(Decimal, Decimal)> {
    match budget.over(mid) {
        Some(affordable) => {
            let max_total = affordable.least(max_abs_qty());
            match (
                side_qty_spec(max_total, bid_weight, budget, bid),
                side_qty_spec(max_total, ask_weight, budget, ask),
            ) {
                (Some(b), Some(a)) => Some((b, a)),
                _ => None,
            }
        },
        None => None,
    }
}

/// Whether `px` lies more than `0.0010` of `last` away from `last`.
pub open spec fn moved_from(px: Decimal, last: Decimal) -> Option<bool> {
    match pct_change_spec(px, last) {
        Some(d) => Some(is_move(d)),
        None => None,
    }
}

/// Whether the prices have moved away from the last quotes; they have
/// where there are no last quotes.
pub open spec fn moved_spec(
    bid: Decimal,
    ask: Decimal,
    last_bid: Option<Decimal>,
    last_ask: Option<Decimal>,
) -> Option<bool> {
    match (last_bid, last_ask) {
        (Some(lb), Some(la)) => match moved_from(bid, lb) {
            Some(true) => Some(true),
            Some(false) => moved_from(ask, la),
            None => None,
        },
        _ => Some(true),
    }
}

/// Whether the refresh interval has passed since the last refresh; it has
/// where there was none.
pub open spec fn refresh_due(last_refresh: Option<u64>, now_ms: u64) -> bool {
    match last_refresh {
        Some(t) => now_ms >= t && now_ms - t >= REFRESH_INTERVAL_MS,
        None => true,
    }
}

/// The market maker's state as plain values.
pub struct MakerView {
    /// The last trades, oldest first, twelve at most.
    pub trades: Seq<Trade>,
    /// The last mids, oldest first, twelve at most.
    pub mids: Seq<Decimal>,
    /// The flow as last read.
    pub flow: Flow,
    /// The bid last quoted.
    pub last_bid: Option<Decimal>,
    /// The ask last quoted.
    pub last_ask: Option<Decimal>,
    /// When quotes last went out.
    pub last_refresh: Option<u64>,
    /// When toxic flow was last seen.
    pub last_toxic: Option<u64>,
}

impl MakerView {
    /// The state after one more trade of the tape.
    pub open spec fn traded(self, trade: Trade) -> MakerView {
        MakerView { trades: pushed(self.trades, trade), ..self }
    }

    /// The notional bought and sold that the flow is read from: that of the
    /// window where it is full, else none.
    pub open spec fn pressure(self) -> Option<(Decimal, Decimal)> {
        if self.trades.len() == FLOW_WINDOW {
            notionals(self.trades)
        } else {
            Some((Decimal::of(0, 0), Decimal::of(0, 0)))
        }
    }

    /// The state after a book with the given touch was seen at `now_ms`:
    /// the mid joins the window and the flow is read anew. `None` where the
    /// arithmetic fails.
    pub open spec fn observed(self, best_bid: Decimal, best_ask: Decimal, now_ms: u64) -> Option<
        (MakerView, Touch),
    > {
        match mid_spec(best_bid, best_ask) {
            None => None,
            Some(mid) => {
                let mids = pushed(self.mids, mid);
                match (drift_spec(mids), self.pressure()) {
                    (Some(d), Some((buy, sell))) => match raw_flow(
                        d,
                        self.trades.len() == FLOW_WINDOW,
                        buy,
                        sell,
                    ) {
                        Some(raw) => Some(
                            (
                                MakerView {
                                    mids,
                                    flow: effective_flow(raw, self.last_toxic, now_ms),
                                    last_toxic: toxic_after(raw, self.last_toxic, now_ms),
                                    ..self
                                },
                                Touch { best_bid, best_ask, mid },
                            ),
                        ),
                        None => None,
                    },
                    _ => None,
                }
            },
        }
    }

    /// What the market maker decides for a touch, given the margin
    /// available and the delta of the order management system. `None` where
    /// the arithmetic fails.
    pub open spec fn plan(
        self,
        touch: Touch,
        available_margin: Decimal,
        delta: Decimal,
        now_ms: u64,
    ) -> Option<QuoteDecision> {
        match (
            available_margin.times(safety_margin()),
            quote_prices_spec(touch.mid, touch.best_bid, touch.best_ask),
        ) {
            (Some(budget), Some((bid, ask))) => if bid@ >= ask@ {
                Some(QuoteDecision::Skip(SkipReason::Crossed))
            } else {
                match weights_spec(self.flow, delta) {
                    None => None,
                    Some(None) => Some(QuoteDecision::Skip(SkipReason::NoWeight)),
                    Some(Some((bw, aw))) => match sizes_spec(budget, touch.mid, bid, ask, bw, aw) {
                        None => None,
                        Some((bid_qty, ask_qty)) => if bid_qty@ == 0 && ask_qty@ == 0 {
                            Some(QuoteDecision::Skip(SkipReason::TooSmall))
                        } else {
                            match moved_spec(bid, ask, self.last_bid, self.last_ask) {
                                None => None,
                                Some(moved) => if !moved && !refresh_due(
                                    self.last_refresh,
                                    now_ms,
                                ) {
                                    Some(QuoteDecision::Skip(SkipReason::NotDue))
                                } else {
                                    Some(
                                        QuoteDecision::Refresh(
                                            Quotes { bid, ask, bid_qty, ask_qty },
                                        ),
                                    )
                                },
                            }
                        },
                    },
                }
            },
            _ => None,
        }
    }

    /// The state after a decision was taken at `now_ms`: quotes that go
    /// out are remembered.
    pub open spec fn decided(self, decision: QuoteDecision, now_ms: u64) -> MakerView {
        match decision {
            QuoteDecision::Refresh(q) => MakerView {
                last_bid: Some(q.bid),
                last_ask: Some(q.ask),
                last_refresh: Some(now_ms),
                ..self
            },
            QuoteDecision::Skip(_) => self,
        }
    }
}

impl Quotes {
    /// Whether the quotes may go out: the bid is below the ask, no quantity
    /// is negative, and each side that is quoted is worth the smallest
    /// notional or more.
    pub open spec fn sound(self) -> bool {
        &&& self.bid@ < self.ask@
        &&& (self.bid_qty@ != 0 ==> (self.bid_qty.times(self.bid) matches Some(n) && n@
            >= min_notional()@))
        &&& (self.ask_qty@ != 0 ==> (self.ask_qty.times(self.ask) matches Some(n) && n@
            >= min_notional()@))
    }

    /// The events that put the quotes to work: a cancel of all that rests,
    /// then an order for each side with a quantity above zero.
    pub open spec fn events_spec(self) -> Seq<OmsEvent> {
        let cancel = seq![OmsEvent::CancelAll];
        let with_bid = if self.bid_qty@ > 0 {
            cancel.push(OmsEvent::CreateOrder { side: Side::Buy, qty: self.bid_qty, price: self.bid })
        } else {
            cancel
        };
        if self.ask_qty@ > 0 {
            with_bid.push(
                OmsEvent::CreateOrder { side: Side::Sell, qty: self.ask_qty, price: self.ask },
            )
        } else {
            with_bid
        }
    }

    /// The events that put the quotes to work.
    pub fn events(&self) -> (r: Vec<OmsEvent>)
        ensures
            r@ == self.events_spec(),
    {
        let mut out: Vec<OmsEvent> = Vec::new();
        out.push(OmsEvent::CancelAll);
        if self.bid_qty.is_positive() {
            out.push(OmsEvent::CreateOrder { side: Side::Buy, qty: self.bid_qty, price: self.bid });
        }
        if self.ask_qty.is_positive() {
            out.push(
                OmsEvent::CreateOrder { side: Side::Sell, qty: self.ask_qty, price: self.ask },
            );
        }
        out
    }

    /// No order falls short of the smallest notional, and the bid is below
    /// the ask: every order among the events of sound quotes has a quantity
    /// above zero and a notional, quantity times price, of the smallest
    /// notional or more, and a buy is priced below a sell.
    pub proof fn lemma_events_sound(self)
        requires
            self.sound(),
        ensures
            forall|i: int|
                0 <= i < self.events_spec().len() ==> match #[trigger] self.events_spec()[i] {
                    OmsEvent::CreateOrder { side, qty, price } => qty@ > 0 && (qty.times(
                        price,
                    ) matches Some(n) && n@ >= min_notional()@),
                    OmsEvent::CancelAll => true,
                    _ => false,
                },
            forall|i: int, j: int|
                0 <= i < self.events_spec().len() && 0 <= j < self.events_spec().len() ==> match (
                    #[trigger] self.events_spec()[i],
                    #[trigger] self.events_spec()[j],
                ) {
                    (
                        OmsEvent::CreateOrder { side: Side::Buy, price: bid, .. },
                        OmsEvent::CreateOrder { side: Side::Sell, price: ask, .. },
                    ) => bid@ < ask@,
                    _ => true,
                },
    {
    }
}

/// The market maker.
#[derive(Debug)]
pub struct MarketMaker {
    trades: VecDeque<Trade>,
    mids: VecDeque<Decimal>,
    flow: Flow,
    last_bid: Option<Decimal>,
    last_ask: Option<Decimal>,
    last_refresh_ms: Option<u64>,
    last_toxic_ms: Option<u64>,
}

impl View for MarketMaker {
    type V = MakerView;

    closed spec fn view(&self) -> MakerView {
        MakerView {
            trades: self.trades@,
            mids: self.mids@,
            flow: self.flow,
            last_bid: self.last_bid,
            last_ask: self.last_ask,
            last_refresh: self.last_refresh_ms,
            last_toxic: self.last_toxic_ms,
        }
    }
}

/// A quantity, or zero where its notional is below the smallest.
pub fn drop_small(qty: Decimal, notional: Decimal) -> (r: Decimal)
    ensures
        r == unless_small(qty, notional),
        r@ == 0 || (r == qty && notional@ >= min_notional()@),
{
    if notional.lt(&Decimal::new(10, 0)) {
        Decimal::zero()
    } else {
        qty
    }
}

/// Whether a change, as a fraction, is a move.
pub fn moved_by(change: Decimal) -> (b: bool)
    ensures
        b == is_move(change),
{
    let threshold = Decimal::new(10, 4);
    change.gt(&threshold) || change.neg().gt(&threshold)
}

/// The weights of bid and ask once the flow has had its say.
pub fn gate(flow: Flow, bid_ratio: Decimal, ask_ratio: Decimal) -> (r: (Decimal, Decimal))
    ensures
        r == gated(flow, bid_ratio, ask_ratio),
{
    match flow {
        Flow::Up => (bid_ratio, Decimal::zero()),
        Flow::Down => (Decimal::zero(), ask_ratio),
        Flow::Cooldown => (Decimal::zero(), Decimal::zero()),
        Flow::Neutral => (bid_ratio, ask_ratio),
    }
}

/// The weights of bid and ask, brought to sum 1; `Ok(None)` where they sum
/// to zero.
pub fn weights(flow: Flow, delta: Decimal) -> (r: Result<Option<(Decimal, Decimal)>, ArithmeticError>)
    ensures
        match weights_spec(flow, delta) {
            Some(w) => r == Ok::<Option<(Decimal, Decimal)>, ArithmeticError>(w),
            None => r.is_err(),
        },
{
    match flow {
        Flow::Cooldown => {
            return Ok(None);
        },
        _ => {},
    }
    let (bid_ratio, ask_ratio) = match inventory_ratios(delta) {
        Some(x) => x,
        None => {
            return Err(ArithmeticError);
        },
    };
    let (bid, ask) = gate(flow, bid_ratio, ask_ratio);
    let sum = match bid.checked_add(ask) {
        Some(s) => s,
        None => {
            return Err(ArithmeticError);
        },
    };
    if sum.is_zero() {
        return Ok(None);
    }
    match (bid.checked_div(sum), ask.checked_div(sum)) {
        (Some(b), Some(a)) => Ok(Some((b, a))),
        _ => Err(ArithmeticError),
    }
}

/// The quantity for one side. It is zero, or worth the smallest notional
/// or more at `price`.
pub fn side_qty(max_total: Decimal, weight: Decimal, budget: Decimal, price: Decimal) -> (r: Option<
    Decimal,
>)
    ensures
        r == side_qty_spec(max_total, weight, budget, price),
        r matches Some(q) ==> q@ == 0 || (q.times(price) matches Some(n) && n@ >= min_notional()@),
{
    let want = match max_total.checked_mul(weight) {
        Some(w) => w,
        None => {
            return None;
        },
    };
    let cap = match budget.checked_div(price) {
        Some(c) => c,
        None => {
            return None;
        },
    };
    let qty = want.min(cap);
    match qty.checked_mul(price) {
        Some(notional) => Some(drop_small(qty, notional)),
        None => None,
    }
}

/// The quantities of bid and ask. Each is zero, or worth the smallest
/// notional or more.
pub fn sizes(
    budget: Decimal,
    mid: Decimal,
    bid: Decimal,
    ask: Decimal,
    bid_weight: Decimal,
    ask_weight: Decimal,
) -> (r: Option<(Decimal, Decimal)>)
    ensures
        r == sizes_spec(budget, mid, bid, ask, bid_weight, ask_weight),
        r matches Some((b, a)) ==> (b@ == 0 || (b.times(bid) matches Some(n) && n@
            >= min_notional()@)) && (a@ == 0 || (a.times(ask) matches Some(n) && n@
            >= min_notional()@)),
{
    let affordable = match budget.checked_div(mid) {
        Some(x) => x,
        None => {
            return None;
        },
    };
    let max_total = affordable.min(Decimal::new(580, 0));
    match (
        side_qty(max_total, bid_weight, budget, bid),
        side_qty(max_total, ask_weight, budget, ask),
    ) {
        (Some(b), Some(a)) => Some((b, a)),
        _ => None,
    }
}

/// Whether the prices have moved away from the last quotes.
pub fn price_moved(
    bid: Decimal,
    ask: Decimal,
    last_bid: Option<Decimal>,
    last_ask: Option<Decimal>,
) -> (r: Option<bool>)
    ensures
        r == moved_spec(bid, ask, last_bid, last_ask),
{
    match (last_bid, last_ask) {
        (Some(lb), Some(la)) => {
            match pct_change(bid, lb) {
                Some(d) => {
                    if moved_by(d) {
                        return Some(true);
                    }
                },
                None => {
                    return None;
                },
            }
            match pct_change(ask, la) {
                Some(d) => Some(moved_by(d)),
                None => None,
            }
        },
        _ => Some(true),
    }
}

/// Whether the refresh interval has passed since the last refresh.
pub fn is_refresh_due(last_refresh: Option<u64>, now_ms: u64) -> (b: bool)
    ensures
        b == refresh_due(last_refresh, now_ms),
{
    match last_refresh {
        Some(t) => now_ms >= t && now_ms - t >= REFRESH_INTERVAL_MS,
        None => true,
    }
}

impl MarketMaker {
    /// The market maker's invariant: neither window holds more than twelve.
    pub open spec fn wf(&self) -> bool {
        self@.trades.len() <= FLOW_WINDOW && self@.mids.len() <= FLOW_WINDOW
    }

    /// A market maker that has seen nothing yet.
    pub fn new() -> (r: MarketMaker)
        ensures
            r.wf(),
            r@ == (MakerView {
                trades: Seq::empty(),
                mids: Seq::empty(),
                flow: Flow::Neutral,
                last_bid: None,
                last_ask: None,
                last_refresh: None,
                last_toxic: None,
            }),
    {
        MarketMaker {
            trades: VecDeque::new(),
            mids: VecDeque::new(),
            flow: Flow::Neutral,
            last_bid: None,
            last_ask: None,
            last_refresh_ms: None,
            last_toxic_ms: None,
        }
    }

    /// The flow as last read.
    pub fn flow(&self) -> (f: Flow)
        ensures
            f == self@.flow,
    {
        self.flow
    }

    /// A trade of the tape: it joins the window, and nothing else happens.
    pub fn on_trade(&mut self, trade: Trade)
        requires
            old(self).wf(),
        ensures
            final(self).wf(),
            final(self)@ == old(self)@.traded(trade),
            final(self)@.trades.len() <= FLOW_WINDOW,
    {
        push_window(&mut self.trades, trade);
    }

    /// A book snapshot seen at `now_ms`. With a side of the book empty
    /// nothing happens: `Ok(None)`. Else the mid joins its window, the flow
    /// is read anew, and the touch comes back. Where the arithmetic fails
    /// nothing changes and the result is an error.
    pub fn on_snapshot(&mut self, book: &OrderBook, now_ms: u64) -> (r: Result<
        Option<Touch>,
        ArithmeticError,
    >)
        requires
            old(self).wf(),
        ensures
            final(self).wf(),
            final(self)@.mids.len() <= FLOW_WINDOW,
            final(self)@.trades.len() <= FLOW_WINDOW,
            match book.touch() {
                None => r == Ok::<Option<Touch>, ArithmeticError>(None) && final(self)@ == old(self)@,
                Some((best_bid, best_ask)) => match old(self)@.observed(best_bid, best_ask, now_ms) {
                    Some((next, touch)) => r == Ok::<Option<Touch>, ArithmeticError>(Some(touch))
                        && final(self)@ == next,
                    None => r.is_err() && final(self)@ == old(self)@,
                },
            },
    {
        let best_bid = match book.best_bid() {
            Some(p) => p,
            None => {
                return Ok(None);
            },
        };
        let best_ask = match book.best_ask() {
            Some(p) => p,
            None => {
                return Ok(None);
            },
        };
        let mid = match mid_price(best_bid, best_ask) {
            Some(m) => m,
            None => {
                return Err(ArithmeticError);
            },
        };
        let n = self.mids.len();
        let oldest = if n == 0 {
            mid
        } else if n >= FLOW_WINDOW {
            self.mids[1]
        } else {
            self.mids[0]
        };
        proof {
            let after = pushed(self.mids@, mid);
            assert(after.last() == mid);
            assert(after.first() == oldest);
        }
        let d = match pct_change(mid, oldest) {
            Some(x) => x,
            None => {
                return Err(ArithmeticError);
            },
        };
        let full = self.trades.len() == FLOW_WINDOW;
        let (buy, sell) = if full {
            match sum_notionals(&self.trades) {
                Some(x) => x,
                None => {
                    return Err(ArithmeticError);
                },
            }
        } else {
            (Decimal::zero(), Decimal::zero())
        };
        let raw = match classify(d, full, buy, sell) {
            Some(f) => f,
            None => {
                return Err(ArithmeticError);
            },
        };
        let flow = match raw {
            Flow::Neutral => if in_cooldown(self.last_toxic_ms, now_ms) {
                Flow::Cooldown
            } else {
                Flow::Neutral
            },
            other => other,
        };
        match raw {
            Flow::Up | Flow::Down => {
                self.last_toxic_ms = Some(now_ms);
            },
            _ => {},
        }
        self.flow = flow;
        push_window(&mut self.mids, mid);
        Ok(Some(Touch { best_bid, best_ask, mid }))
    }

    /// Decides what to quote for a touch, given the margin available and
    /// the delta of the order management system. Quotes that go out are
    /// sound and are remembered; a skip leaves the state alone. Where the
    /// arithmetic fails nothing changes and the result is an error.
    pub fn quote(
        &mut self,
        touch: Touch,
        available_margin: Decimal,
        delta: Decimal,
        now_ms: u64,
    ) -> (r: Result<QuoteDecision, ArithmeticError>)
        requires
            old(self).wf(),
        ensures
            final(self).wf(),
            match old(self)@.plan(touch, available_margin, delta, now_ms) {
                Some(decision) => r == Ok::<QuoteDecision, ArithmeticError>(decision) && final(self)@ == old(self)@.decided(decision, now_ms),
                None => r.is_err() && final(self)@ == old(self)@,
            },
            r matches Ok(QuoteDecision::Refresh(q)) ==> q.sound() && (q.bid_qty@ != 0 || q.ask_qty@
                != 0),
            old(self)@.flow == Flow::Cooldown ==> !(r matches Ok(QuoteDecision::Refresh(_))),
    {
        let budget = available_margin.checked_mul(Decimal::new(85, 2));
        let prices = quote_prices(touch.mid, touch.best_bid, touch.best_ask);
        let (budget, bid, ask) = match (budget, prices) {
            (Some(m), Some((b, a))) => (m, b, a),
            _ => {
                return Err(ArithmeticError);
            },
        };
        if bid.ge(&ask) {
            return Ok(QuoteDecision::Skip(SkipReason::Crossed));
        }
        let (bid_weight, ask_weight) = match weights(self.flow, delta) {
            Ok(Some(w)) => w,
            Ok(None) => {
                return Ok(QuoteDecision::Skip(SkipReason::NoWeight));
            },
            Err(e) => {
                return Err(e);
            },
        };
        let (bid_qty, ask_qty) = match sizes(budget, touch.mid, bid, ask, bid_weight, ask_weight) {
            Some(s) => s,
            None => {
                return Err(ArithmeticError);
            },
        };
        if bid_qty.is_zero() && ask_qty.is_zero() {
            return Ok(QuoteDecision::Skip(SkipReason::TooSmall));
        }
        let moved = match price_moved(bid, ask, self.last_bid, self.last_ask) {
            Some(m) => m,
            None => {
                return Err(ArithmeticError);
            },
        };
        if !moved && !is_refresh_due(self.last_refresh_ms, now_ms) {
            return Ok(QuoteDecision::Skip(SkipReason::NotDue));
        }
        self.last_bid = Some(bid);
        self.last_ask = Some(ask);
        self.last_refresh_ms = Some(now_ms);
        Ok(QuoteDecision::Refresh(Quotes { bid, ask, bid_qty, ask_qty }))
    }
}

} // verus!
