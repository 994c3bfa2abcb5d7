//! Reading what the venue sends: price levels and trades arrive as text, and
//! what does not parse is dropped.

use crate::decimal::Decimal;
use crate::market::types::AggressorSide;
use crate::market::types::BookLevel;
use crate::market::types::MarketSnapshot;
use crate::market::types::OrderBook;
use crate::market::types::Trade;
use vstd::prelude::*;

verus! {

/// One price level as the venue sends it.
#[derive(Debug, Clone)]
pub struct WireLevel {
    pub px: String,
    pub sz: String,
}

/// One trade as the venue sends it.
#[derive(Debug, Clone)]
pub struct WireTrade {
    pub px: String,
    pub sz: String,
    pub side: String,
    pub time: u64,
}

/// The level that a wire level spells, or `None` where its price or its
/// size is no decimal.
pub open spec fn level_spec(level: WireLevel) -> Option<BookLevel> {
    match (Decimal::parsed(level.px@), Decimal::parsed(level.sz@)) {
        (Some(price), Some(qty)) => Some(BookLevel { price, qty }),
        _ => None,
    }
}

/// The levels that parse, in the order in which they came.
pub open spec fn levels_spec(levels: Seq<WireLevel>) -> Seq<BookLevel>
    decreases levels.len(),
{
    if levels.len() == 0 {
        Seq::empty()
    } else {
        match level_spec(levels.last()) {
            Some(l) => levels_spec(levels.drop_last()).push(l),
            None => levels_spec(levels.drop_last()),
        }
    }
}

/// The aggressor that a side letter names: `B` a buyer, `A` a seller.
pub open spec fn aggressor_spec(side: Seq<char>) -> Option<AggressorSide> {
    if side == seq!['B'] {
        Some(AggressorSide::Buy)
    } else if side == seq!['A'] {
        Some(AggressorSide::Sell)
    } else {
        None
    }
}

/// Reads one price level.
pub fn parse_level(level: &WireLevel) -> (r: Option<BookLevel>)
    ensures
        r == level_spec(*level),
{
    let price = match Decimal::from_str(level.px.as_str()) {
        Some(p) => p,
        None => {
            return None;
        },
    };
    match Decimal::from_str(level.sz.as_str()) {
        Some(qty) => Some(BookLevel { price, qty }),
        None => None,
    }
}

/// Reads one side of the book: the levels that parse, in their order.
pub fn parse_levels(levels: &Vec<WireLevel>) -> (r: Vec<BookLevel>)
    ensures
        r@ == levels_spec(levels@),
{
    let mut out: Vec<BookLevel> = Vec::new();
    let mut i: usize = 0;
    while i < levels.len()
        invariant
            i <= levels.len(),
            out@ == levels_spec(levels@.take(i as int)),
        decreases levels.len() - i,
    {
        assert(levels@.take(i + 1).drop_last() =~= levels@.take(i as int));
        match parse_level(&levels[i]) {
            Some(l) => {
                out.push(l);
            },
            None => {},
        }
        i = i + 1;
    }
    assert(levels@.take(i as int) =~= levels@);
    out
}

/// Reads a book of `symbol`: the bids and the asks that parse, each side in
/// its order, under the venue's time.
pub fn build_snapshot(symbol: &String, bids: &Vec<WireLevel>, asks: &Vec<WireLevel>, time: u64) -> (r:
    MarketSnapshot)
    ensures
        r.symbol@ == symbol@,
        r.book.bids@ == levels_spec(bids@),
        r.book.asks@ == levels_spec(asks@),
        r.timestamp_ms == time,
{
    MarketSnapshot {
        symbol: symbol.clone(),
        book: OrderBook { bids: parse_levels(bids), asks: parse_levels(asks) },
        timestamp_ms: time,
    }
}

/// Reads the side letter of a trade.
pub fn parse_aggressor(side: &str) -> (r: Option<AggressorSide>)
    ensures
        r == aggressor_spec(side@),
{
    proof {
        reveal_strlit("B");
        reveal_strlit("A");
    }
    if side.unicode_len() != 1 {
        return None;
    }
    let c = side.get_char(0);
    if c == 'B' {
        assert(side@ =~= seq!['B']);
        Some(AggressorSide::Buy)
    } else if c == 'A' {
        assert(side@ =~= seq!['A']);
        Some(AggressorSide::Sell)
    } else {
        assert(side@[0] != 'B' && side@[0] != 'A');
        None
    }
}

/// Reads one trade of `symbol`. A trade whose price, size or side does not
/// parse is dropped: `None`.
pub fn parse_trade(symbol: &String, trade: &WireTrade) -> (r: Option<Trade>)
    ensures
        match (
            Decimal::parsed(trade.px@),
            Decimal::parsed(trade.sz@),
            aggressor_spec(trade.side@),
        ) {
            (Some(price), Some(qty), Some(side)) => r matches Some(t) && t.price == price && t.qty
                == qty && t.side == side && t.timestamp_ms == trade.time && t.symbol@ == symbol@,
            _ => r.is_none(),
        },
{
    let price = match Decimal::from_str(trade.px.as_str()) {
        Some(p) => p,
        None => {
            return None;
        },
    };
    let qty = match Decimal::from_str(trade.sz.as_str()) {
        Some(q) => q,
        None => {
            return None;
        },
    };
    let side = match parse_aggressor(trade.side.as_str()) {
        Some(s) => s,
        None => {
            return None;
        },
    };
    Some(Trade { symbol: symbol.clone(), price, qty, side, timestamp_ms: trade.time })
}

} // verus!
