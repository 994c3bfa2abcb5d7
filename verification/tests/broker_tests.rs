use laminar::broker::fills::{parse_cloid, FillDedup, UnreadableFill, WireFill};
use laminar::broker::sim::sim_events;
use laminar::broker::types::BrokerCommand;
use laminar::broker::venue::{
    any_error, build_symbol_rules, cancel_outcome, flatten_order, has_error_status, limit_order,
    net_position, place_outcome, quantize_price, quantize_qty, read_account, rules_for, wire_order,
    AssetMeta, LegStatus, SymbolRules, TimeInForce, VenueResponse, WireAccount, WirePosition,
};
use laminar::decimal::Decimal;
use laminar::oms::event::OmsEvent;
use laminar::oms::order::{OrderId, Side};

fn dec(num: i64, scale: u32) -> Decimal {
    Decimal::new(num, scale)
}

fn rules(sz_decimals: u32) -> SymbolRules {
    SymbolRules { tick: dec(5, 1), sz_decimals }
}

fn exact(d: Decimal) -> (i128, u32) {
    (d.mantissa(), d.scale())
}

#[test]
fn cloid_round_trip() {
    let id = 0xa1a2a3a4b1b2c1c2d1d2d3d4d5d6d7d8u128;
    assert_eq!(parse_cloid("a1a2a3a4b1b2c1c2d1d2d3d4d5d6d7d8"), Some(OrderId(id)));
    assert_eq!(parse_cloid("0xa1a2a3a4b1b2c1c2d1d2d3d4d5d6d7d8"), Some(OrderId(id)));
    assert_eq!(parse_cloid("0xA1A2A3A4B1B2C1C2D1D2D3D4D5D6D7D8"), Some(OrderId(id)));
    assert_eq!(parse_cloid("00000000000000000000000000000001"), Some(OrderId(1)));
}

#[test]
fn cloid_that_is_not_ours_is_refused() {
    assert_eq!(parse_cloid(""), None);
    assert_eq!(parse_cloid("0x"), None);
    assert_eq!(parse_cloid("a1a2a3a4b1b2c1c2d1d2d3d4d5d6d7"), None);
    assert_eq!(parse_cloid("a1a2a3a4b1b2c1c2d1d2d3d4d5d6d7d8d9"), None);
    assert_eq!(parse_cloid("g1a2a3a4b1b2c1c2d1d2d3d4d5d6d7d8"), None);
    assert_eq!(parse_cloid("0Xa1a2a3a4b1b2c1c2d1d2d3d4d5d6d7d8"), None);
    assert_eq!(parse_cloid("a1a2a3a4-b1b2-c1c2-d1d2-d3d4d5d6d7d8"), None);
    assert_eq!(parse_cloid("é1a2a3a4b1b2c1c2d1d2d3d4d5d6d7d8"), None);
}

fn fill(hash: &str, cloid: Option<&str>, qty: Decimal) -> WireFill {
    WireFill {
        hash: String::from(hash),
        cloid: cloid.map(String::from),
        qty: Some(qty),
        price: Some(dec(100, 0)),
    }
}

#[test]
fn duplicate_fill_suppression() {
    let cloid = "0x00000000000000000000000000000007";
    let mut dedup = FillDedup::new();
    let first = dedup.on_user_fills(false, vec![fill("0xabc", Some(cloid), dec(1, 0))]).unwrap();
    let second = dedup.on_user_fills(false, vec![fill("0xabc", Some(cloid), dec(1, 0))]).unwrap();
    assert_eq!(first.len(), 1);
    assert!(second.is_empty());
    match first[0] {
        OmsEvent::Fill { order_id, qty, price } => {
            assert_eq!(order_id, OrderId(7));
            assert_eq!(qty, dec(1, 0));
            assert_eq!(price, dec(100, 0));
        }
        _ => panic!("a fill was expected"),
    }
}

#[test]
fn fills_within_one_message_are_deduplicated_too() {
    let cloid = "00000000000000000000000000000007";
    let mut dedup = FillDedup::new();
    let out = dedup.on_user_fills(
        false,
        vec![
            fill("h1", Some(cloid), dec(1, 0)),
            fill("h2", Some(cloid), dec(2, 0)),
            fill("h1", Some(cloid), dec(1, 0)),
            fill("h3", None, dec(3, 0)),
            fill("h4", Some("nonsense"), dec(4, 0)),
            fill("h2", Some(cloid), dec(2, 0)),
        ],
    );
    let out = out.unwrap();
    assert_eq!(out.len(), 2);
    assert!(matches!(out[0], OmsEvent::Fill { qty, .. } if qty == dec(1, 0)));
    assert!(matches!(out[1], OmsEvent::Fill { qty, .. } if qty == dec(2, 0)));
    assert!(dedup.contains(&String::from("h3")));
    assert!(dedup.contains(&String::from("h4")));
    assert!(!dedup.contains(&String::from("h5")));
}

#[test]
fn snapshot_messages_are_dropped_unseen() {
    let cloid = "00000000000000000000000000000007";
    let mut dedup = FillDedup::new();
    assert!(dedup.on_user_fills(true, vec![fill("h1", Some(cloid), dec(1, 0))]).unwrap().is_empty());
    assert!(!dedup.contains(&String::from("h1")));
    assert_eq!(dedup.on_user_fills(false, vec![fill("h1", Some(cloid), dec(1, 0))]).unwrap().len(), 1);
}

#[test]
fn unreadable_fill_is_an_error_only_where_it_is_let_through() {
    let cloid = "00000000000000000000000000000007";
    let broken = |hash: &str| WireFill {
        hash: String::from(hash),
        cloid: Some(String::from(cloid)),
        qty: None,
        price: Some(dec(100, 0)),
    };
    let mut dedup = FillDedup::new();
    // In a snapshot nothing is read.
    assert!(dedup.on_user_fills(true, vec![broken("h1")]).unwrap().is_empty());
    // A duplicate is held back and never read.
    assert_eq!(dedup.on_user_fills(false, vec![fill("h1", Some(cloid), dec(1, 0))]).unwrap().len(), 1);
    assert!(dedup.on_user_fills(false, vec![broken("h1")]).unwrap().is_empty());
    // One that is let through is an error, and its hash is remembered.
    assert!(matches!(dedup.on_user_fills(false, vec![broken("h2")]), Err(UnreadableFill)));
    assert!(dedup.contains(&String::from("h2")));
    let no_price = WireFill {
        hash: String::from("h3"),
        cloid: None,
        qty: Some(dec(1, 0)),
        price: None,
    };
    assert!(dedup.on_user_fills(false, vec![no_price]).is_err());
}

#[test]
fn first_sight_is_once() {
    let mut dedup = FillDedup::new();
    assert!(dedup.first_sight(String::from("a")));
    assert!(!dedup.first_sight(String::from("a")));
    assert!(dedup.first_sight(String::from("b")));
    assert!(!dedup.first_sight(String::from("a")));
}

#[test]
fn prices_keep_five_figures_and_six_less_size_decimals() {
    assert_eq!(exact(quantize_price(&rules(0), dec(12345678, 7))), (12345, 4));
    assert_eq!(exact(quantize_price(&rules(2), dec(12345678, 7))), (12345, 4));
    assert_eq!(exact(quantize_price(&rules(4), dec(12345678, 7))), (123, 2));
    assert_eq!(exact(quantize_price(&rules(0), dec(123456789, 4))), (12345, 0));
    assert_eq!(exact(quantize_price(&rules(0), dec(1234567, 6))), (12345, 4));
    assert_eq!(exact(quantize_price(&rules(0), dec(475, 1))), (475, 1));
    assert_eq!(exact(quantize_price(&rules(0), dec(47500, 3))), (475, 1));
    assert_eq!(exact(quantize_price(&rules(0), dec(100, 0))), (100, 0));
    assert_eq!(exact(quantize_price(&rules(0), dec(0, 3))), (0, 0));
    assert_eq!(exact(quantize_price(&rules(6), dec(12399, 2))), (123, 0));
    assert_eq!(exact(quantize_price(&rules(9), dec(12399, 2))), (123, 0));
    assert_eq!(exact(quantize_price(&rules(0), dec(1234567, 0))), (1234567, 0));
    assert_eq!(exact(quantize_price(&rules(0), dec(123456, 1))), (12345, 0));
    assert_eq!(exact(quantize_price(&rules(0), dec(99999949, 7))), (99999, 4));
}

#[test]
fn sizes_are_cut_to_the_size_decimals() {
    assert_eq!(exact(quantize_qty(&rules(2), dec(12399, 4))), (123, 2));
    assert_eq!(exact(quantize_qty(&rules(0), dec(12399, 4))), (1, 0));
    assert_eq!(exact(quantize_qty(&rules(4), dec(5, 1))), (5, 1));
    assert_eq!(exact(quantize_qty(&rules(1), dec(-199, 2))), (-19, 1));
}

#[test]
fn limit_orders_are_worded_for_the_venue() {
    let o = limit_order(&rules(2), OrderId(5), Side::Buy, dec(12399, 4), dec(12345678, 7));
    assert!(o.is_buy);
    assert!(!o.reduce_only);
    assert_eq!(exact(o.limit_px), (12345, 4));
    assert_eq!(exact(o.sz), (123, 2));
    assert_eq!(o.cloid, Some(OrderId(5)));
    assert_eq!(o.tif, TimeInForce::Gtc);
    let s = limit_order(&rules(2), OrderId(6), Side::Sell, dec(1, 0), dec(1, 0));
    assert!(!s.is_buy);
}

#[test]
fn flatten_sells_a_long_and_buys_a_short() {
    let long = flatten_order(&rules(0), dec(2, 0), dec(475, 1));
    assert!(!long.is_buy);
    assert!(long.reduce_only);
    assert_eq!(long.sz, dec(2, 0));
    assert_eq!(exact(long.limit_px), (475, 1));
    assert_eq!(long.cloid, None);
    assert_eq!(long.tif, TimeInForce::Ioc);
    let short = flatten_order(&rules(0), dec(-3, 0), dec(63, 0));
    assert!(short.is_buy);
    assert_eq!(short.sz, dec(3, 0));
    let flat = flatten_order(&rules(0), dec(0, 0), dec(63, 0));
    assert!(flat.is_buy);
}

#[test]
fn commands_become_wire_orders() {
    let r = rules(1);
    let place = BrokerCommand::PlaceLimit {
        order_id: OrderId(1),
        side: Side::Sell,
        qty: dec(125, 2),
        price: dec(10, 0),
    };
    let o = wire_order(&r, &place).unwrap();
    assert!(!o.is_buy);
    assert_eq!(exact(o.sz), (12, 1));
    assert_eq!(o.tif, TimeInForce::Gtc);
    let flat = BrokerCommand::Flatten { qty: dec(2, 0), limit_px: dec(475, 1) };
    let f = wire_order(&r, &flat).unwrap();
    assert!(f.reduce_only);
    assert!(!f.is_buy);
    assert!(wire_order(&r, &BrokerCommand::Cancel { order_id: OrderId(1) }).is_none());
}

#[test]
fn answers_are_classified() {
    let ok = VenueResponse::Taken { statuses: Some(vec![LegStatus::Done, LegStatus::Done]) };
    let partly = VenueResponse::Taken { statuses: Some(vec![LegStatus::Done, LegStatus::Error]) };
    let bare = VenueResponse::Taken { statuses: None };
    let none = VenueResponse::Taken { statuses: Some(vec![]) };
    assert!(!has_error_status(&ok));
    assert!(has_error_status(&partly));
    assert!(!has_error_status(&bare));
    assert!(!has_error_status(&none));
    assert!(has_error_status(&VenueResponse::Refused));
    assert!(any_error(&vec![LegStatus::Error]));
    assert!(!any_error(&vec![]));

    let id = OrderId(3);
    assert!(matches!(place_outcome(id, &Some(ok.clone())), Some(OmsEvent::OrderAccepted { order_id }) if order_id == id));
    assert!(matches!(place_outcome(id, &Some(partly.clone())), Some(OmsEvent::OrderRejected { order_id }) if order_id == id));
    assert!(matches!(place_outcome(id, &Some(VenueResponse::Refused)), Some(OmsEvent::OrderRejected { .. })));
    assert!(place_outcome(id, &None).is_none());
    assert!(matches!(cancel_outcome(id, &Some(ok)), Some(OmsEvent::CancelConfirmed { order_id }) if order_id == id));
    assert!(cancel_outcome(id, &Some(partly)).is_none());
    assert!(cancel_outcome(id, &None).is_none());
}

#[test]
fn symbol_rules_are_built_and_found() {
    let table = build_symbol_rules(&vec![
        AssetMeta { name: String::from("BTC"), sz_decimals: 5 },
        AssetMeta { name: String::from("TST"), sz_decimals: 2 },
        AssetMeta { name: String::from("BTC"), sz_decimals: 4 },
    ]);
    assert_eq!(table.len(), 3);
    assert_eq!(table[1].name, "TST");
    assert_eq!(table[1].rules.tick, dec(5, 1));
    let tst = rules_for(&table, &String::from("TST")).unwrap();
    assert_eq!(tst.sz_decimals, 2);
    assert_eq!(rules_for(&table, &String::from("BTC")).unwrap().sz_decimals, 4);
    assert!(rules_for(&table, &String::from("ETH")).is_none());
}

#[test]
fn account_is_read_from_the_wire() {
    let wire = WireAccount {
        account_value: String::from("10000.5"),
        total_raw_usd: String::from("9000.25"),
        total_margin_used: String::from("120"),
        withdrawable: String::from("8500"),
        positions: vec![
            WirePosition { coin: String::from("BTC"), szi: String::from("1.5") },
            WirePosition { coin: String::from("TST"), szi: String::from("-2.0") },
            WirePosition { coin: String::from("TST"), szi: String::from("9") },
        ],
    };
    let a = read_account(&wire, &String::from("TST")).unwrap();
    assert_eq!(a.equity, dec(100005, 1));
    assert_eq!(a.unrealized_pnl, dec(100025, 2));
    assert_eq!(a.used_margin, dec(120, 0));
    assert_eq!(a.available_margin, dec(8500, 0));
    assert_eq!(a.realized_pnl, dec(0, 0));
    assert_eq!(a.net_position, dec(-2, 0));
    let none = read_account(&wire, &String::from("ETH")).unwrap();
    assert_eq!(none.net_position, dec(0, 0));
    let bad = WireAccount { withdrawable: String::from("x"), ..wire.clone() };
    assert!(read_account(&bad, &String::from("TST")).is_err());
    assert_eq!(net_position(&wire.positions, &String::from("BTC")), Some(dec(15, 1)));
    let broken = vec![WirePosition { coin: String::from("TST"), szi: String::from("?") }];
    assert_eq!(net_position(&broken, &String::from("TST")), None);
    assert_eq!(net_position(&broken, &String::from("BTC")), Some(dec(0, 0)));
}

#[test]
fn simulator_accepts_and_fills_in_two_parts() {
    let place = BrokerCommand::PlaceLimit {
        order_id: OrderId(4),
        side: Side::Buy,
        qty: dec(10, 1),
        price: dec(100, 0),
    };
    let ev = sim_events(&place).unwrap();
    assert_eq!(ev.len(), 3);
    assert!(matches!(ev[0], OmsEvent::OrderAccepted { order_id } if order_id == OrderId(4)));
    match (ev[1], ev[2]) {
        (OmsEvent::Fill { qty: a, price: pa, .. }, OmsEvent::Fill { qty: b, price: pb, .. }) => {
            assert_eq!(a, dec(4, 1));
            assert_eq!(b, dec(6, 1));
            assert_eq!(pa, dec(100, 0));
            assert_eq!(pb, dec(100, 0));
        }
        _ => panic!("two fills were expected"),
    }
    let cancel = sim_events(&BrokerCommand::Cancel { order_id: OrderId(4) }).unwrap();
    assert_eq!(cancel.len(), 1);
    assert!(matches!(cancel[0], OmsEvent::CancelConfirmed { order_id } if order_id == OrderId(4)));
    assert!(sim_events(&BrokerCommand::Flatten { qty: dec(1, 0), limit_px: dec(1, 0) })
        .unwrap()
        .is_empty());
    let max = Decimal::from_i128_with_scale(79_228_162_514_264_337_593_543_950_335, 0).unwrap();
    let huge = BrokerCommand::PlaceLimit { order_id: OrderId(4), side: Side::Buy, qty: max, price: max };
    assert!(sim_events(&huge).is_some());
}

#[test]
fn order_prices_leave_without_trailing_zeros() {
    let o = limit_order(&rules(2), OrderId(5), Side::Buy, dec(1, 0), dec(12300, 2));
    assert_eq!(exact(o.limit_px), (123, 0));
    let f = flatten_order(&rules(2), dec(2, 0), dec(4750, 2));
    assert_eq!(exact(f.limit_px), (475, 1));
    let place = BrokerCommand::PlaceLimit {
        order_id: OrderId(9),
        side: Side::Sell,
        qty: dec(1, 0),
        price: dec(5000, 3),
    };
    assert_eq!(exact(wire_order(&rules(2), &place).unwrap().limit_px), (5, 0));
}
