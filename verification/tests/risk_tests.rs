use laminar::decimal::Decimal;
use laminar::market::types::{BookLevel, MarketEvent, MarketSnapshot, OrderBook, Trade, AggressorSide};
use laminar::oms::account::AccountSnapshot;
use laminar::oms::event::{KillReason, OmsEvent};
use laminar::rms::driver::RiskDriver;
use laminar::rms::engine::{crossing_limit, drawdown, RiskEngine};
use laminar::rms::types::RiskConfig;

fn dec(num: i64, scale: u32) -> Decimal {
    Decimal::new(num, scale)
}

fn account(equity: Decimal, net_position: Decimal) -> AccountSnapshot {
    AccountSnapshot { equity, net_position, ..AccountSnapshot::empty() }
}

fn book(bid: Decimal, ask: Decimal) -> OrderBook {
    OrderBook {
        bids: vec![BookLevel { price: bid, qty: dec(1, 0) }],
        asks: vec![BookLevel { price: ask, qty: dec(1, 0) }],
    }
}

fn engine() -> RiskEngine {
    RiskEngine::new(dec(10000, 0), RiskConfig { max_drawdown_pct: dec(10, 2) })
}

#[test]
fn drawdown_is_the_loss_over_the_start() {
    assert_eq!(drawdown(dec(10000, 0), dec(8999, 0)), Some(dec(1001, 4)));
    assert_eq!(drawdown(dec(10000, 0), dec(10500, 0)), Some(dec(-5, 2)));
    assert_eq!(drawdown(dec(0, 0), dec(1, 0)), None);
}

#[test]
fn crossing_limit_goes_five_percent_through() {
    let b = book(dec(50, 0), dec(52, 0));
    assert_eq!(crossing_limit(dec(2, 0), &b), Some(dec(475, 1)));
    assert_eq!(crossing_limit(dec(-2, 0), &b), Some(dec(546, 1)));
    assert_eq!(crossing_limit(dec(0, 0), &b), Some(dec(475, 1)));
    let empty = OrderBook { bids: vec![], asks: vec![] };
    assert_eq!(crossing_limit(dec(2, 0), &empty), Some(dec(0, 0)));
    assert_eq!(crossing_limit(dec(-2, 0), &empty), Some(dec(0, 0)));
}

#[test]
fn risk_kill_scenario() {
    let mut rms = engine();
    let b = book(dec(50, 0), dec(51, 0));
    let kill = rms.on_snapshot(&account(dec(8999, 0), dec(2, 0)), &b).unwrap();
    match kill {
        Some(OmsEvent::RiskKill { reason, qty, limit_px }) => {
            assert_eq!(qty, dec(2, 0));
            assert_eq!(limit_px, dec(475, 1));
            match reason {
                KillReason::Drawdown { drawdown, limit } => {
                    assert_eq!(drawdown, dec(1001, 4));
                    assert_eq!(limit, dec(10, 2));
                }
            }
        }
        _ => panic!("a kill was expected"),
    }
    assert!(rms.killed());
    assert!(rms.on_snapshot(&account(dec(8999, 0), dec(2, 0)), &b).unwrap().is_none());
    assert!(rms.on_snapshot(&account(dec(1, 0), dec(-2, 0)), &b).unwrap().is_none());
    assert!(rms.on_snapshot(&account(dec(20000, 0), dec(0, 0)), &b).unwrap().is_none());
}

#[test]
fn no_kill_below_the_limit_and_a_kill_right_at_it() {
    let mut rms = engine();
    let b = book(dec(50, 0), dec(51, 0));
    assert!(rms.on_snapshot(&account(dec(9001, 0), dec(2, 0)), &b).unwrap().is_none());
    assert!(rms.on_snapshot(&account(dec(12000, 0), dec(2, 0)), &b).unwrap().is_none());
    assert!(!rms.killed());
    assert!(rms.on_snapshot(&account(dec(9000, 0), dec(-1, 0)), &b).unwrap().is_some());
    assert!(rms.killed());
}

#[test]
fn short_position_is_bought_back_above_the_ask() {
    let mut rms = engine();
    let b = book(dec(50, 0), dec(60, 0));
    match rms.on_snapshot(&account(dec(5000, 0), dec(-3, 0)), &b).unwrap() {
        Some(OmsEvent::RiskKill { qty, limit_px, .. }) => {
            assert_eq!(qty, dec(-3, 0));
            assert_eq!(limit_px, dec(63, 0));
        }
        _ => panic!("a kill was expected"),
    }
}

#[test]
fn a_start_of_zero_is_an_error_and_kills_nothing() {
    let mut rms = RiskEngine::new(dec(0, 0), RiskConfig { max_drawdown_pct: dec(10, 2) });
    let b = book(dec(50, 0), dec(51, 0));
    assert!(rms.on_snapshot(&account(dec(1, 0), dec(0, 0)), &b).is_err());
    assert!(!rms.killed());
}

#[test]
fn driver_waits_for_a_book() {
    let start = account(dec(10000, 0), dec(0, 0));
    let mut driver = RiskDriver::start(&start);
    assert!(!driver.ready());
    assert!(driver.on_account(&account(dec(1, 0), dec(2, 0))).unwrap().is_none());
    driver.on_market(MarketEvent::Trade(Trade {
        symbol: String::from("TST"),
        price: dec(1, 0),
        qty: dec(1, 0),
        side: AggressorSide::Buy,
        timestamp_ms: 0,
    }));
    assert!(!driver.ready());
    driver.on_market(MarketEvent::Snapshot(MarketSnapshot {
        symbol: String::from("TST"),
        book: book(dec(50, 0), dec(51, 0)),
        timestamp_ms: 1,
    }));
    assert!(driver.ready());
    assert!(driver.on_account(&account(dec(9500, 0), dec(2, 0))).unwrap().is_none());
    match driver.on_account(&account(dec(8999, 0), dec(2, 0))).unwrap() {
        Some(OmsEvent::RiskKill { qty, limit_px, .. }) => {
            assert_eq!(qty, dec(2, 0));
            assert_eq!(limit_px, dec(475, 1));
        }
        _ => panic!("a kill was expected"),
    }
    assert!(driver.on_account(&account(dec(8000, 0), dec(2, 0))).unwrap().is_none());
}
