use laminar::decimal::Decimal;
use laminar::market::types::{AggressorSide, BookLevel, OrderBook, Trade};
use laminar::oms::event::OmsEvent;
use laminar::oms::order::Side;
use laminar::strategy::flow::{
    classify, flow_from_imbalance, in_cooldown, push_window, sum_notionals, Flow,
};
use laminar::strategy::mm::{
    gate, is_refresh_due, price_moved, side_qty, sizes, weights, MarketMaker, QuoteDecision, Quotes,
    SkipReason,
};
use laminar::strategy::price_sim::PriceSim;
use laminar::strategy::pricing::{
    inventory_ratios, mid_price, pct_change, quote_prices, snap_to_tick,
};
use laminar::strategy::simple::chase_delta;
use std::collections::VecDeque;

fn dec(num: i64, scale: u32) -> Decimal {
    Decimal::new(num, scale)
}

fn trade(price: Decimal, qty: Decimal, side: AggressorSide) -> Trade {
    Trade { symbol: String::from("TST"), price, qty, side, timestamp_ms: 0 }
}

fn book(bid: Decimal, ask: Decimal) -> OrderBook {
    OrderBook {
        bids: vec![BookLevel { price: bid, qty: dec(1, 0) }],
        asks: vec![BookLevel { price: ask, qty: dec(1, 0) }],
    }
}

#[test]
fn snap_floors_to_the_tick() {
    assert_eq!(snap_to_tick(dec(10037, 2), dec(5, 1)), Some(dec(1000, 1)));
    assert_eq!(snap_to_tick(dec(-3, 1), dec(1, 0)), Some(dec(-1, 0)));
    assert_eq!(snap_to_tick(dec(12345678, 8), dec(1, 7)), Some(dec(1234567, 7)));
    assert_eq!(snap_to_tick(dec(5, 0), dec(0, 0)), None);
}

#[test]
fn pct_change_is_relative_to_the_base() {
    assert_eq!(pct_change(dec(101, 0), dec(100, 0)), Some(dec(1, 2)));
    assert_eq!(pct_change(dec(99, 0), dec(100, 0)), Some(dec(-1, 2)));
    assert_eq!(pct_change(dec(5, 0), dec(0, 0)), Some(dec(0, 0)));
}

#[test]
fn inventory_ratios_lean_with_delta() {
    assert_eq!(inventory_ratios(dec(0, 0)), Some((dec(1, 0), dec(1, 0))));
    assert_eq!(inventory_ratios(dec(1, 0)), Some((dec(15, 1), dec(5, 1))));
    assert_eq!(inventory_ratios(dec(-1, 0)), Some((dec(5, 1), dec(15, 1))));
    assert_eq!(inventory_ratios(dec(10, 0)), Some((dec(2, 0), dec(0, 0))));
    assert_eq!(inventory_ratios(dec(-10, 0)), Some((dec(0, 0), dec(2, 0))));
}

#[test]
fn mid_is_the_middle() {
    assert_eq!(mid_price(dec(99, 0), dec(101, 0)), Some(dec(100, 0)));
    assert_eq!(mid_price(dec(1, 0), dec(2, 0)), Some(dec(15, 1)));
}

#[test]
fn quote_prices_straddle_the_touch() {
    let (bid, ask) = quote_prices(dec(100, 0), dec(9999, 2), dec(10001, 2)).unwrap();
    assert_eq!(bid, dec(99975, 3));
    assert_eq!(ask, dec(100025, 3));
    let (bid, ask) = quote_prices(dec(100, 0), dec(90, 0), dec(110, 0)).unwrap();
    assert_eq!(bid, dec(899999999, 7));
    assert_eq!(ask, dec(1100000001, 7));
    assert!(bid.lt(&ask));
}

#[test]
fn window_keeps_the_last_twelve() {
    let mut w: VecDeque<u32> = VecDeque::new();
    for i in 0..15u32 {
        push_window(&mut w, i);
    }
    assert_eq!(w.len(), 12);
    assert_eq!(w[0], 3);
    assert_eq!(w[11], 14);
}

#[test]
fn notionals_sum_by_aggressor() {
    let mut w: VecDeque<Trade> = VecDeque::new();
    w.push_back(trade(dec(10, 0), dec(2, 0), AggressorSide::Buy));
    w.push_back(trade(dec(11, 0), dec(1, 0), AggressorSide::Sell));
    w.push_back(trade(dec(12, 0), dec(5, 1), AggressorSide::Buy));
    assert_eq!(sum_notionals(&w), Some((dec(26, 0), dec(11, 0))));
    assert_eq!(sum_notionals(&VecDeque::new()), Some((dec(0, 0), dec(0, 0))));
}

#[test]
fn imbalance_needs_sixty_five_percent() {
    assert_eq!(flow_from_imbalance(dec(65, 0), dec(35, 0)), Some(Flow::Up));
    assert_eq!(flow_from_imbalance(dec(64, 0), dec(36, 0)), Some(Flow::Neutral));
    assert_eq!(flow_from_imbalance(dec(35, 0), dec(65, 0)), Some(Flow::Down));
    assert_eq!(flow_from_imbalance(dec(0, 0), dec(0, 0)), Some(Flow::Neutral));
    assert_eq!(flow_from_imbalance(dec(80, 0), dec(20, 0)), Some(Flow::Up));
}

#[test]
fn classification_goes_drift_then_impact_then_imbalance() {
    let zero = dec(0, 0);
    assert_eq!(classify(dec(10, 4), false, zero, zero), Some(Flow::Up));
    assert_eq!(classify(dec(-10, 4), false, zero, zero), Some(Flow::Down));
    assert_eq!(classify(dec(9, 4), false, dec(90, 0), dec(10, 0)), Some(Flow::Neutral));
    assert_eq!(classify(dec(1, 4), true, dec(51, 0), dec(49, 0)), Some(Flow::Up));
    assert_eq!(classify(dec(-1, 4), true, dec(49, 0), dec(51, 0)), Some(Flow::Down));
    assert_eq!(classify(dec(-1, 4), true, dec(51, 0), dec(49, 0)), Some(Flow::Neutral));
    assert_eq!(classify(zero, true, dec(51, 0), dec(49, 0)), Some(Flow::Neutral));
    assert_eq!(classify(zero, true, dec(80, 0), dec(20, 0)), Some(Flow::Up));
    assert_eq!(classify(dec(1, 4), true, dec(20, 0), dec(80, 0)), Some(Flow::Down));
}

#[test]
fn cooldown_lasts_six_seconds() {
    assert!(!in_cooldown(None, 1_000));
    assert!(in_cooldown(Some(1_000), 1_000));
    assert!(in_cooldown(Some(1_000), 6_999));
    assert!(!in_cooldown(Some(1_000), 7_000));
    assert!(in_cooldown(Some(1_000), 500));
}

#[test]
fn gating_takes_out_the_side_against_the_flow() {
    let b = dec(15, 1);
    let a = dec(5, 1);
    assert_eq!(gate(Flow::Up, b, a), (b, dec(0, 0)));
    assert_eq!(gate(Flow::Down, b, a), (dec(0, 0), a));
    assert_eq!(gate(Flow::Cooldown, b, a), (dec(0, 0), dec(0, 0)));
    assert_eq!(gate(Flow::Neutral, b, a), (b, a));
}

#[test]
fn weights_sum_to_one() {
    assert_eq!(weights(Flow::Neutral, dec(0, 0)), Ok(Some((dec(5, 1), dec(5, 1)))));
    assert_eq!(weights(Flow::Neutral, dec(1, 0)), Ok(Some((dec(75, 2), dec(25, 2)))));
    assert_eq!(weights(Flow::Up, dec(0, 0)), Ok(Some((dec(1, 0), dec(0, 0)))));
    assert_eq!(weights(Flow::Down, dec(0, 0)), Ok(Some((dec(0, 0), dec(1, 0)))));
    assert_eq!(weights(Flow::Cooldown, dec(0, 0)), Ok(None));
    assert_eq!(weights(Flow::Up, dec(-10, 0)), Ok(None));
    assert_eq!(weights(Flow::Down, dec(10, 0)), Ok(None));
}

#[test]
fn sizing_caps_and_drops_small_sides() {
    assert_eq!(side_qty(dec(10, 0), dec(5, 1), dec(1000, 0), dec(100, 0)), Some(dec(5, 0)));
    assert_eq!(side_qty(dec(10, 0), dec(5, 1), dec(200, 0), dec(100, 0)), Some(dec(2, 0)));
    assert_eq!(side_qty(dec(10, 0), dec(5, 1), dec(1000, 0), dec(1, 0)), Some(dec(0, 0)));
    assert_eq!(side_qty(dec(10, 0), dec(5, 1), dec(1000, 0), dec(2, 0)), Some(dec(5, 0)));
    assert_eq!(side_qty(dec(10, 0), dec(5, 1), dec(1000, 0), dec(0, 0)), None);
    assert_eq!(
        sizes(dec(850, 0), dec(100, 0), dec(99, 0), dec(101, 0), dec(5, 1), dec(5, 1)),
        Some((dec(425, 2), dec(425, 2)))
    );
    assert_eq!(
        sizes(dec(1000000, 0), dec(100, 0), dec(99, 0), dec(101, 0), dec(75, 2), dec(25, 2)),
        Some((dec(435, 0), dec(145, 0)))
    );
    assert_eq!(
        sizes(dec(5, 0), dec(100, 0), dec(99, 0), dec(101, 0), dec(5, 1), dec(5, 1)),
        Some((dec(0, 0), dec(0, 0)))
    );
}

#[test]
fn refresh_gate() {
    assert_eq!(price_moved(dec(100, 0), dec(101, 0), None, None), Some(true));
    assert_eq!(price_moved(dec(100, 0), dec(101, 0), Some(dec(100, 0)), None), Some(true));
    assert_eq!(
        price_moved(dec(100, 0), dec(101, 0), Some(dec(100, 0)), Some(dec(101, 0))),
        Some(false)
    );
    assert_eq!(
        price_moved(dec(1001, 1), dec(101, 0), Some(dec(100, 0)), Some(dec(101, 0))),
        Some(false)
    );
    assert_eq!(
        price_moved(dec(10011, 2), dec(101, 0), Some(dec(100, 0)), Some(dec(101, 0))),
        Some(true)
    );
    assert_eq!(
        price_moved(dec(100, 0), dec(1008, 1), Some(dec(100, 0)), Some(dec(101, 0))),
        Some(true)
    );
    assert!(is_refresh_due(None, 0));
    assert!(!is_refresh_due(Some(1_000), 10_999));
    assert!(is_refresh_due(Some(1_000), 11_000));
    assert!(!is_refresh_due(Some(1_000), 500));
}

#[test]
fn quotes_become_cancel_then_orders() {
    let q = Quotes { bid: dec(99, 0), ask: dec(101, 0), bid_qty: dec(2, 0), ask_qty: dec(0, 0) };
    let ev = q.events();
    assert_eq!(ev.len(), 2);
    assert!(matches!(ev[0], OmsEvent::CancelAll));
    match ev[1] {
        OmsEvent::CreateOrder { side, qty, price } => {
            assert_eq!(side, Side::Buy);
            assert_eq!(qty, dec(2, 0));
            assert_eq!(price, dec(99, 0));
        }
        _ => panic!("an order was expected"),
    }
    let both = Quotes { bid: dec(99, 0), ask: dec(101, 0), bid_qty: dec(2, 0), ask_qty: dec(3, 0) };
    let ev = both.events();
    assert_eq!(ev.len(), 3);
    match ev[2] {
        OmsEvent::CreateOrder { side, qty, price } => {
            assert_eq!(side, Side::Sell);
            assert_eq!(qty, dec(3, 0));
            assert_eq!(price, dec(101, 0));
        }
        _ => panic!("an order was expected"),
    }
}

#[test]
fn market_maker_quotes_both_sides_when_neutral() {
    let mut mm = MarketMaker::new();
    assert!(mm.on_snapshot(&OrderBook { bids: vec![], asks: vec![] }, 0).unwrap().is_none());
    let touch = mm.on_snapshot(&book(dec(99, 0), dec(101, 0)), 1_000).unwrap().unwrap();
    assert_eq!(touch.mid, dec(100, 0));
    assert_eq!(touch.best_bid, dec(99, 0));
    assert_eq!(touch.best_ask, dec(101, 0));
    assert_eq!(mm.flow(), Flow::Neutral);
    let d = mm.quote(touch, dec(1000, 0), dec(0, 0), 1_000).unwrap();
    match d {
        QuoteDecision::Refresh(q) => {
            assert_eq!(q.bid, dec(989999999, 7));
            assert_eq!(q.ask, dec(1010000001, 7));
            assert!(q.bid.lt(&q.ask));
            assert_eq!(q.bid_qty, dec(425, 2));
            assert_eq!(q.ask_qty, dec(425, 2));
            assert!(q.bid_qty.checked_mul(q.bid).unwrap().ge(&dec(10, 0)));
            assert!(q.ask_qty.checked_mul(q.ask).unwrap().ge(&dec(10, 0)));
        }
        QuoteDecision::Skip(r) => panic!("skipped: {:?}", r),
    }
    let again = mm.on_snapshot(&book(dec(99, 0), dec(101, 0)), 2_000).unwrap().unwrap();
    assert!(matches!(
        mm.quote(again, dec(1000, 0), dec(0, 0), 2_000).unwrap(),
        QuoteDecision::Skip(SkipReason::NotDue)
    ));
    let later = mm.on_snapshot(&book(dec(99, 0), dec(101, 0)), 11_000).unwrap().unwrap();
    assert!(matches!(
        mm.quote(later, dec(1000, 0), dec(0, 0), 11_000).unwrap(),
        QuoteDecision::Refresh(_)
    ));
}

#[test]
fn market_maker_skips_small_and_empty() {
    let mut mm = MarketMaker::new();
    let touch = mm.on_snapshot(&book(dec(99, 0), dec(101, 0)), 0).unwrap().unwrap();
    assert!(matches!(
        mm.quote(touch, dec(5, 0), dec(0, 0), 0).unwrap(),
        QuoteDecision::Skip(SkipReason::TooSmall)
    ));
    assert!(mm.quote(touch, dec(1000, 0), dec(0, 0), 0).is_ok());
    let mut zero = MarketMaker::new();
    let t = zero.on_snapshot(&book(dec(0, 0), dec(0, 0)), 0).unwrap().unwrap();
    assert!(zero.quote(t, dec(1000, 0), dec(0, 0), 0).is_err());
}

#[test]
fn flow_cooldown_scenario() {
    let mut mm = MarketMaker::new();
    for i in 0..12 {
        let side = if i < 10 { AggressorSide::Buy } else { AggressorSide::Sell };
        mm.on_trade(trade(dec(100, 0), dec(1, 0), side));
    }
    let touch = mm.on_snapshot(&book(dec(99, 0), dec(101, 0)), 1_000).unwrap().unwrap();
    assert_eq!(mm.flow(), Flow::Up);
    match mm.quote(touch, dec(1000, 0), dec(0, 0), 1_000).unwrap() {
        QuoteDecision::Refresh(q) => {
            assert!(q.bid_qty.is_positive());
            assert!(q.ask_qty.is_zero());
        }
        QuoteDecision::Skip(r) => panic!("skipped: {:?}", r),
    }
    for i in 0..12 {
        let side = if i % 2 == 0 { AggressorSide::Buy } else { AggressorSide::Sell };
        mm.on_trade(trade(dec(100, 0), dec(1, 0), side));
    }
    let touch = mm.on_snapshot(&book(dec(99, 0), dec(101, 0)), 5_000).unwrap().unwrap();
    assert_eq!(mm.flow(), Flow::Cooldown);
    assert!(matches!(
        mm.quote(touch, dec(1000, 0), dec(0, 0), 20_000).unwrap(),
        QuoteDecision::Skip(SkipReason::NoWeight)
    ));
    let touch = mm.on_snapshot(&book(dec(99, 0), dec(101, 0)), 7_000).unwrap().unwrap();
    assert_eq!(mm.flow(), Flow::Neutral);
    assert!(matches!(
        mm.quote(touch, dec(1000, 0), dec(0, 0), 20_000).unwrap(),
        QuoteDecision::Refresh(_)
    ));
}

#[test]
fn drift_of_the_mid_is_toxic() {
    let mut mm = MarketMaker::new();
    mm.on_snapshot(&book(dec(99, 0), dec(101, 0)), 0).unwrap();
    assert_eq!(mm.flow(), Flow::Neutral);
    mm.on_snapshot(&book(dec(992, 1), dec(1012, 1)), 100).unwrap();
    assert_eq!(mm.flow(), Flow::Up);
    let mut down = MarketMaker::new();
    down.on_snapshot(&book(dec(99, 0), dec(101, 0)), 0).unwrap();
    down.on_snapshot(&book(dec(988, 1), dec(1008, 1)), 100).unwrap();
    assert_eq!(down.flow(), Flow::Down);
    down.on_snapshot(&book(dec(99, 0), dec(101, 0)), 200).unwrap();
    assert_eq!(down.flow(), Flow::Cooldown);
}

#[test]
fn simple_strategy_chases_delta() {
    assert!(chase_delta(dec(0, 0)).is_empty());
    let buy = chase_delta(dec(15, 1));
    assert_eq!(buy.len(), 2);
    assert!(matches!(buy[0], OmsEvent::CancelAll));
    match buy[1] {
        OmsEvent::CreateOrder { side, qty, price } => {
            assert_eq!(side, Side::Buy);
            assert_eq!(qty, dec(15, 1));
            assert_eq!(price, dec(100, 0));
        }
        _ => panic!("an order was expected"),
    }
    let sell = chase_delta(dec(-2, 0));
    match sell[1] {
        OmsEvent::CreateOrder { side, qty, price } => {
            assert_eq!(side, Side::Sell);
            assert_eq!(qty, dec(2, 0));
            assert_eq!(price, dec(100, 0));
        }
        _ => panic!("an order was expected"),
    }
}

#[test]
fn price_sim_walks_by_a_tenth() {
    let mut sim = PriceSim::new(dec(100, 0));
    assert_eq!(sim.tick(), Some(dec(1001, 1)));
    assert_eq!(sim.tick(), Some(dec(1002, 1)));
    let max = Decimal::from_i128_with_scale(79_228_162_514_264_337_593_543_950_335, 0).unwrap();
    let mut top = PriceSim::new(max);
    assert_eq!(top.tick(), Some(max));
}
