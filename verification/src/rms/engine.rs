//! The drawdown monitor.
//!
//! On every tick the drawdown `(start - equity) / start` is held against
//! the limit. Once it reaches the limit the engine asks for a kill, with the
//! position to flatten and a limit price that crosses the book by five
//! percent, and never asks again.

use crate::decimal::ArithmeticError;
use crate::decimal::Decimal;
use crate::market::types::OrderBook;
use crate::oms::account::AccountSnapshot;
use crate::oms::event::KillReason;
use crate::oms::event::OmsEvent;
use crate::rms::types::RiskConfig;
use crate::rms::types::RiskState;
use vstd::prelude::*;

verus! {

/// The drawdown: `(start - equity) / start`, each step as the decimal
/// arithmetic computes it. There is none for a starting equity of zero.
pub open spec fn drawdown_spec(start: Decimal, equity: Decimal) -> Option<Decimal> {
    match start.minus(equity) {
        Some(loss) => loss.over(start),
        None => None,
    }
}

/// The price of the best level of one side of the book, zero for an empty
/// side.
pub open spec fn best_or_zero(levels: Seq<crate::market::types::BookLevel>) -> Decimal {
    if levels.len() > 0 {
        levels[0].price
    } else {
        Decimal::of(0, 0)
    }
}

/// The limit price that flattens `net_position` across the book: a short
/// position is bought back at `1.05` times the best ask, any other is sold
/// at `0.95` times the best bid.
pub open spec fn crossing_limit_spec(net_position: Decimal, book: OrderBook) -> Option<Decimal> {
    if net_position@ < 0 {
        best_or_zero(book.asks@).times(Decimal::of(105, 2))
    } else {
        best_or_zero(book.bids@).times(Decimal::of(95, 2))
    }
}

/// The risk engine as plain values.
pub struct RiskView {
    pub cfg: RiskConfig,
    pub state: RiskState,
}

impl RiskView {
    /// What a tick with the given account and book makes of the engine,
    /// and the kill it asks for, if any. `None` where the arithmetic fails.
    pub open spec fn ticked(self, acct: AccountSnapshot, book: OrderBook) -> Option<
        (RiskView, Option<OmsEvent>),
    > {
        if self.state.killed {
            Some((self, None))
        } else {
            match drawdown_spec(self.state.start_equity, acct.equity) {
                None => None,
                Some(dd) => if self.cfg.breached_by(dd) {
                    match crossing_limit_spec(acct.net_position, book) {
                        Some(limit_px) => Some(
                            (
                                RiskView {
                                    state: RiskState { killed: true, ..self.state },
                                    ..self
                                },
                                Some(
                                    OmsEvent::RiskKill {
                                        reason: KillReason::Drawdown {
                                            drawdown: dd,
                                            limit: self.cfg.max_drawdown_pct,
                                        },
                                        qty: acct.net_position,
                                        limit_px,
                                    },
                                ),
                            ),
                        ),
                        None => None,
                    }
                } else {
                    Some((self, None))
                },
            }
        }
    }

    /// The engine after a tick; a tick on which the arithmetic fails leaves
    /// it as it is.
    pub open spec fn after(self, acct: AccountSnapshot, book: OrderBook) -> RiskView {
        match self.ticked(acct, book) {
            Some((next, _)) => next,
            None => self,
        }
    }

    /// How many kills the engine asks for over a run of ticks.
    pub open spec fn kills(self, ticks: Seq<(AccountSnapshot, OrderBook)>) -> nat
        decreases ticks.len(),
    {
        if ticks.len() == 0 {
            0
        } else {
            let (acct, book) = ticks.first();
            let here: nat = match self.ticked(acct, book) {
                Some((_, Some(_))) => 1,
                _ => 0,
            };
            here + self.after(acct, book).kills(ticks.drop_first())
        }
    }

    /// The kill switch fires once at most: over any run of ticks the engine
    /// asks for at most one kill, and for none once it has killed.
    pub proof fn lemma_one_kill(self, ticks: Seq<(AccountSnapshot, OrderBook)>)
        ensures
            self.kills(ticks) <= 1,
            self.state.killed ==> self.kills(ticks) == 0,
        decreases ticks.len(),
    {
        if ticks.len() > 0 {
            let (acct, book) = ticks.first();
            self.after(acct, book).lemma_one_kill(ticks.drop_first());
        }
    }
}

impl RiskConfig {
    /// Whether a drawdown is a breach: it has reached the limit.
    pub open spec fn breached_by(self, drawdown: Decimal) -> bool {
        drawdown@ >= self.max_drawdown_pct@
    }

    /// Whether a drawdown is a breach.
    pub fn is_breach(&self, drawdown: Decimal) -> (b: bool)
        ensures
            b == self.breached_by(drawdown),
    {
        drawdown.ge(&self.max_drawdown_pct)
    }
}

/// The drawdown monitor.
#[derive(Debug, Clone, Copy)]
pub struct RiskEngine {
    cfg: RiskConfig,
    state: RiskState,
}

impl View for RiskEngine {
    type V = RiskView;

    closed spec fn view(&self) -> RiskView {
        RiskView { cfg: self.cfg, state: self.state }
    }
}

/// The drawdown from `start` to `equity`, or `None` where the arithmetic
/// fails, as it does for a start of zero.
pub fn drawdown(start: Decimal, equity: Decimal) -> (r: Option<Decimal>)
    ensures
        r == drawdown_spec(start, equity),
{
    match start.checked_sub(equity) {
        Some(loss) => loss.checked_div(start),
        None => None,
    }
}

/// The limit price that flattens `net_position` across `book`, or `None`
/// where the arithmetic fails.
pub fn crossing_limit(net_position: Decimal, book: &OrderBook) -> (r: Option<Decimal>)
    ensures
        r == crossing_limit_spec(net_position, *book),
{
    if net_position.is_negative() {
        let best_ask = match book.best_ask() {
            Some(p) => p,
            None => Decimal::zero(),
        };
        best_ask.checked_mul(Decimal::new(105, 2))
    } else {
        let best_bid = match book.best_bid() {
            Some(p) => p,
            None => Decimal::zero(),
        };
        best_bid.checked_mul(Decimal::new(95, 2))
    }
}

impl RiskEngine {
    /// An engine that measures the drawdown against `start_equity` and has
    /// not killed.
    pub fn new(start_equity: Decimal, cfg: RiskConfig) -> (r: RiskEngine)
        ensures
            r@ == (RiskView { cfg, state: RiskState { start_equity, killed: false } }),
    {
        RiskEngine { cfg, state: RiskState { start_equity, killed: false } }
    }

    /// Whether the kill switch has fired.
    pub fn killed(&self) -> (b: bool)
        ensures
            b == self@.state.killed,
    {
        self.state.killed
    }

    /// One tick: holds the drawdown of `acct` against the limit and, on a
    /// breach, returns the kill to send and latches. An engine that has
    /// killed returns nothing, whatever it is shown. Where the arithmetic
    /// fails nothing changes and the result is an error.
    pub fn on_snapshot(&mut self, acct: &AccountSnapshot, book: &OrderBook) -> (r: Result<
        Option<OmsEvent>,
        ArithmeticError,
    >)
        ensures
            match old(self)@.ticked(*acct, *book) {
                Some((next, kill)) => r == Ok::<Option<OmsEvent>, ArithmeticError>(kill) && final(self)@ == next,
                None => r.is_err() && final(self)@ == old(self)@,
            },
            old(self)@.state.killed ==> r == Ok::<Option<OmsEvent>, ArithmeticError>(None),
            old(self)@.state.killed ==> final(self)@.state.killed,
            r matches Ok(Some(_)) ==> final(self)@.state.killed,
    {
        if self.state.killed {
            return Ok(None);
        }
        let dd = match drawdown(self.state.start_equity, acct.equity) {
            Some(d) => d,
            None => {
                return Err(ArithmeticError);
            },
        };
        if !self.cfg.is_breach(dd) {
            return Ok(None);
        }
        let limit_px = match crossing_limit(acct.net_position, book) {
            Some(p) => p,
            None => {
                return Err(ArithmeticError);
            },
        };
        self.state.killed = true;
        Ok(
            Some(
                OmsEvent::RiskKill {
                    reason: KillReason::Drawdown { drawdown: dd, limit: self.cfg.max_drawdown_pct },
                    qty: acct.net_position,
                    limit_px,
                },
            ),
        )
    }
}

} // verus!
