//! The order book and the trade tape as typed values.

use crate::decimal::Decimal;
use vstd::prelude::*;

verus! {

/// One price level of the book.
#[derive(Debug, Clone, Copy)]
pub struct BookLevel {
    pub price: Decimal,
    pub qty: Decimal,
}

/// Both sides of the book, best level first: bids by falling price, asks by
/// rising price. Either side may be empty for a moment.
#[derive(Debug, Clone)]
pub struct OrderBook {
    pub bids: Vec<BookLevel>,
    pub asks: Vec<BookLevel>,
}

/// The book at one moment.
#[derive(Debug, Clone)]
pub struct MarketSnapshot {
    pub symbol: String,
    pub book: OrderBook,
    pub timestamp_ms: u64,
}

/// The side that crossed the spread in a trade.
#[derive(Debug, Clone, Copy, PartialEq, Eq, Structural)]
pub enum AggressorSide {
    Buy,
    Sell,
}

/// One trade of the tape.
#[derive(Debug, Clone)]
pub struct Trade {
    pub symbol: String,
    pub price: Decimal,
    pub qty: Decimal,
    pub side: AggressorSide,
    pub timestamp_ms: u64,
}

/// What the market feed hands to its subscribers.
#[derive(Debug, Clone)]
pub enum MarketEvent {
    Snapshot(MarketSnapshot),
    Trade(Trade),
}

impl OrderBook {
    /// The best bid and the best ask, or `None` where a side is empty.
    pub open spec fn touch(self) -> Option<(Decimal, Decimal)> {
        if self.bids@.len() > 0 && self.asks@.len() > 0 {
            Some((self.bids@[0].price, self.asks@[0].price))
        } else {
            None
        }
    }

    /// The price of the best bid, or `None` where there is no bid.
    pub fn best_bid(&self) -> (r: Option<Decimal>)
        ensures
            r == (if self.bids@.len() > 0 {
                Some(self.bids@[0].price)
            } else {
                None
            }),
    {
        if self.bids.len() > 0 {
            Some(self.bids[0].price)
        } else {
            None
        }
    }

    /// The price of the best ask, or `None` where there is no ask.
    pub fn best_ask(&self) -> (r: Option<Decimal>)
        ensures
            r == (if self.asks@.len() > 0 {
                Some(self.asks@[0].price)
            } else {
                None
            }),
    {
        if self.asks.len() > 0 {
            Some(self.asks[0].price)
        } else {
            None
        }
    }
}

} // verus!
