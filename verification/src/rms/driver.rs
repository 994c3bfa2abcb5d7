//! What drives the risk engine: the latest book is kept, and a tick is
//! passed on only once a book has been seen.

use crate::decimal::ArithmeticError;
use crate::decimal::Decimal;
use crate::market::types::MarketEvent;
use crate::market::types::OrderBook;
use crate::oms::account::AccountSnapshot;
use crate::oms::event::OmsEvent;
use crate::rms::engine::RiskEngine;
use crate::rms::engine::RiskView;
use crate::rms::types::RiskConfig;
use crate::rms::types::RiskState;
use vstd::prelude::*;

verus! {

/// The risk engine together with the latest book.
#[derive(Debug)]
pub struct RiskDriver {
    engine: RiskEngine,
    last_book: Option<OrderBook>,
}

impl RiskDriver {
    /// The engine that is driven.
    pub closed spec fn engine_of(&self) -> RiskView {
        self.engine@
    }

    /// The latest book, if one has been seen.
    pub closed spec fn book_of(&self) -> Option<OrderBook> {
        self.last_book
    }

    /// A driver whose engine measures against the equity of
    /// `start_account`, with the kill at a drawdown of ten percent, and that
    /// has seen no book yet.
    pub fn start(start_account: &AccountSnapshot) -> (r: RiskDriver)
        ensures
            r.book_of().is_none(),
            r.engine_of() == (RiskView {
                cfg: RiskConfig { max_drawdown_pct: Decimal::of(10, 2) },
                state: RiskState { start_equity: start_account.equity, killed: false },
            }),
    {
        RiskDriver {
            engine: RiskEngine::new(
                start_account.equity,
                RiskConfig { max_drawdown_pct: Decimal::new(10, 2) },
            ),
            last_book: None,
        }
    }

    /// A market event: the book of a snapshot replaces the one kept, a
    /// trade changes nothing.
    pub fn on_market(&mut self, event: MarketEvent)
        ensures
            final(self).engine_of() == old(self).engine_of(),
            match event {
                MarketEvent::Snapshot(s) => final(self).book_of() == Some(s.book),
                MarketEvent::Trade(_) => final(self).book_of() == old(self).book_of(),
            },
    {
        match event {
            MarketEvent::Snapshot(s) => {
                self.last_book = Some(s.book);
            },
            MarketEvent::Trade(_) => {},
        }
    }

    /// Whether a tick is to be acted on: a book has been seen.
    pub fn ready(&self) -> (b: bool)
        ensures
            b == self.book_of().is_some(),
    {
        self.last_book.is_some()
    }

    /// A tick for which the account was fetched. Before any book was seen
    /// nothing happens; after, the engine holds the account against the
    /// latest book and may return the kill to send.
    pub fn on_account(&mut self, acct: &AccountSnapshot) -> (r: Result<
        Option<OmsEvent>,
        ArithmeticError,
    >)
        ensures
            final(self).book_of() == old(self).book_of(),
            match old(self).book_of() {
                None => r == Ok::<Option<OmsEvent>, ArithmeticError>(None) && final(self).engine_of() == old(self).engine_of(),
                Some(book) => match old(self).engine_of().ticked(*acct, book) {
                    Some((next, kill)) => r == Ok::<Option<OmsEvent>, ArithmeticError>(kill)
                        && final(self).engine_of() == next,
                    None => r.is_err() && final(self).engine_of() == old(self).engine_of(),
                },
            },
    {
        match &self.last_book {
            None => Ok(None),
            Some(book) => self.engine.on_snapshot(acct, book),
        }
    }
}

} // verus!
