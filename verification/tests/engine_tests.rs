use laminar::decimal::Decimal;
use laminar::oms::engine::OmsEngine;
use laminar::oms::order::{OrderId, OrderState, Side};

fn dec(num: i64, scale: u32) -> Decimal {
    Decimal::new(num, scale)
}

#[test]
fn end_to_end_reconciliation() {
    let mut oms = OmsEngine::new();

    oms.set_target_position(dec(10, 1));
    assert_eq!(oms.delta().unwrap(), dec(10, 1));

    let oid = oms.create_order(Side::Buy, dec(10, 1), dec(100, 0)).unwrap();
    oms.on_order_accepted(oid);

    assert_eq!(oms.delta().unwrap(), dec(0, 1));

    oms.on_fill(oid, dec(4, 1), dec(100, 0)).unwrap();
    assert_eq!(oms.delta().unwrap(), dec(0, 1));

    oms.on_fill(oid, dec(6, 1), dec(100, 0)).unwrap();
    assert_eq!(oms.delta().unwrap(), dec(0, 1));
}

#[test]
fn cancel_releases_exposure() {
    let mut oms = OmsEngine::new();

    oms.set_target_position(dec(10, 1));
    let oid = oms.create_order(Side::Buy, dec(10, 1), dec(100, 0)).unwrap();
    oms.on_order_accepted(oid);

    oms.request_cancel(oid);
    oms.on_cancel_confirmed(oid);

    assert_eq!(oms.delta().unwrap(), dec(10, 1));
}

#[test]
fn position_updates_with_fills() {
    let mut oms = OmsEngine::new();

    oms.set_target_position(dec(10, 1));
    let oid = oms.create_order(Side::Buy, dec(10, 1), dec(100, 0)).unwrap();
    oms.on_order_accepted(oid);

    oms.on_fill(oid, dec(4, 1), dec(1000, 1)).unwrap();
    oms.on_fill(oid, dec(6, 1), dec(1010, 1)).unwrap();

    let pos = oms.position();
    assert_eq!(pos.net_qty, dec(10, 1));
    assert_eq!(pos.avg_price, dec(1006, 1));
}

#[test]
fn basic_reconciliation_scenario() {
    let mut oms = OmsEngine::new();
    oms.set_target_position(dec(10, 1));
    assert_eq!(oms.delta().unwrap(), dec(10, 1));
    let oid = oms.create_order(Side::Buy, dec(10, 1), dec(100, 0)).unwrap();
    assert_eq!(oms.delta().unwrap(), dec(10, 1));
    oms.on_order_accepted(oid);
    assert_eq!(oms.delta().unwrap(), dec(0, 0));
    oms.on_fill(oid, dec(4, 1), dec(100, 0)).unwrap();
    assert_eq!(oms.delta().unwrap(), dec(0, 0));
    oms.on_fill(oid, dec(6, 1), dec(100, 0)).unwrap();
    assert_eq!(oms.delta().unwrap(), dec(0, 0));
    assert_eq!(oms.position().net_qty, dec(10, 1));
    assert_eq!(oms.position().avg_price, dec(100, 0));
    assert_eq!(oms.order(oid).unwrap().state, OrderState::Filled);
}

#[test]
fn direction_flip_scenario() {
    let mut oms = OmsEngine::new();
    oms.set_target_position(dec(10, 1));
    let buy = oms.create_order(Side::Buy, dec(10, 1), dec(100, 0)).unwrap();
    oms.on_order_accepted(buy);
    oms.on_fill(buy, dec(10, 1), dec(100, 0)).unwrap();

    oms.set_target_position(dec(-5, 1));
    assert_eq!(oms.delta().unwrap(), dec(-15, 1));

    let sell = oms.create_order(Side::Sell, dec(15, 1), dec(101, 0)).unwrap();
    oms.on_order_accepted(sell);
    assert_eq!(oms.delta().unwrap(), dec(0, 0));
    oms.on_fill(sell, dec(15, 1), dec(101, 0)).unwrap();

    let pos = oms.position();
    assert_eq!(pos.realized_pnl, dec(10, 1));
    assert_eq!(pos.net_qty, dec(-5, 1));
    assert_eq!(pos.avg_price, dec(101, 0));
    assert_eq!(oms.delta().unwrap(), dec(0, 0));
}

#[test]
fn full_fill_moves_delta_by_the_fill() {
    let mut oms = OmsEngine::new();
    oms.set_target_position(dec(3, 0));
    let before = oms.delta().unwrap();
    let oid = oms.create_order(Side::Sell, dec(2, 0), dec(50, 0)).unwrap();
    oms.on_order_accepted(oid);
    oms.on_fill(oid, dec(2, 0), dec(50, 0)).unwrap();
    let after = oms.delta().unwrap();
    assert_eq!(before, dec(3, 0));
    assert_eq!(after, dec(5, 0));
    assert_ne!(after, before);
}

#[test]
fn cancel_round_trip_keeps_delta_among_other_orders() {
    let mut oms = OmsEngine::new();
    oms.set_target_position(dec(2, 0));
    let first = oms.create_order(Side::Buy, dec(5, 1), dec(10, 0)).unwrap();
    oms.on_order_accepted(first);
    let before = oms.delta().unwrap();
    assert_eq!(before, dec(15, 1));

    let oid = oms.create_order(Side::Sell, dec(7, 1), dec(11, 0)).unwrap();
    oms.on_order_accepted(oid);
    assert_eq!(oms.delta().unwrap(), dec(22, 1));
    oms.request_cancel(oid);
    assert_eq!(oms.delta().unwrap(), dec(15, 1));
    oms.on_cancel_confirmed(oid);
    assert_eq!(oms.delta().unwrap(), before);
}

#[test]
fn rejection_ends_the_order_and_leaves_filled_alone() {
    let mut oms = OmsEngine::new();
    oms.set_target_position(dec(1, 0));
    let oid = oms.create_order(Side::Buy, dec(1, 0), dec(10, 0)).unwrap();
    oms.on_order_rejected(oid);
    assert_eq!(oms.order(oid).unwrap().state, OrderState::Rejected);
    assert_eq!(oms.delta().unwrap(), dec(1, 0));
    assert_eq!(oms.position().net_qty, dec(0, 0));
    assert!(oms.open_order_ids().is_empty());
}

#[test]
fn open_order_ids_are_the_live_ones_in_order() {
    let mut oms = OmsEngine::new();
    assert!(oms.create_order_with_id(OrderId(1), Side::Buy, dec(1, 0), dec(10, 0)));
    assert!(oms.create_order_with_id(OrderId(2), Side::Sell, dec(1, 0), dec(11, 0)));
    assert!(oms.create_order_with_id(OrderId(3), Side::Buy, dec(1, 0), dec(9, 0)));
    assert!(oms.open_order_ids().is_empty());
    oms.on_order_accepted(OrderId(3));
    oms.on_order_accepted(OrderId(1));
    assert_eq!(oms.open_order_ids(), vec![OrderId(1), OrderId(3)]);
    oms.on_fill(OrderId(1), dec(5, 1), dec(10, 0)).unwrap();
    assert_eq!(oms.open_order_ids(), vec![OrderId(1), OrderId(3)]);
    oms.request_cancel(OrderId(3));
    assert_eq!(oms.open_order_ids(), vec![OrderId(1)]);
    oms.on_fill(OrderId(1), dec(5, 1), dec(10, 0)).unwrap();
    assert!(oms.open_order_ids().is_empty());
}

#[test]
fn an_identifier_is_used_once() {
    let mut oms = OmsEngine::new();
    assert!(oms.create_order_with_id(OrderId(9), Side::Buy, dec(1, 0), dec(10, 0)));
    oms.on_order_accepted(OrderId(9));
    assert!(!oms.create_order_with_id(OrderId(9), Side::Sell, dec(2, 0), dec(20, 0)));
    let kept = oms.order(OrderId(9)).unwrap();
    assert_eq!(kept.side, Side::Buy);
    assert_eq!(kept.state, OrderState::Open { remaining: dec(1, 0) });
    assert!(oms.contains(OrderId(9)));
    assert!(!oms.contains(OrderId(10)));
    assert!(oms.order(OrderId(10)).is_none());
}

#[test]
fn views_and_snapshot_show_every_order() {
    let mut oms = OmsEngine::new();
    assert!(oms.create_order_with_id(OrderId(1), Side::Buy, dec(2, 0), dec(10, 0)));
    assert!(oms.create_order_with_id(OrderId(2), Side::Sell, dec(3, 0), dec(11, 0)));
    oms.on_order_accepted(OrderId(1));
    oms.on_fill(OrderId(1), dec(5, 1), dec(10, 0)).unwrap();
    let views = oms.order_views();
    assert_eq!(views.len(), 2);
    assert_eq!(views[0].id, OrderId(1));
    assert_eq!(views[0].remaining_qty, dec(15, 1));
    assert_eq!(views[0].original_qty, dec(2, 0));
    assert_eq!(views[0].limit_price, dec(10, 0));
    assert_eq!(views[0].state, OrderState::PartiallyFilled { remaining: dec(15, 1) });
    assert_eq!(views[1].id, OrderId(2));
    assert_eq!(views[1].side, Side::Sell);
    assert_eq!(views[1].remaining_qty, dec(3, 0));
    assert_eq!(views[1].state, OrderState::New);
    let snap = oms.snapshot();
    assert_eq!(snap.orders.len(), 2);
    assert_eq!(snap.net_position, dec(5, 1));
    assert_eq!(snap.avg_price, dec(10, 0));
}

#[test]
fn duplicate_fill_on_a_filled_order_is_dropped() {
    let mut oms = OmsEngine::new();
    oms.set_target_position(dec(1, 0));
    assert!(oms.create_order_with_id(OrderId(1), Side::Buy, dec(1, 0), dec(10, 0)));
    oms.on_order_accepted(OrderId(1));
    oms.on_fill(OrderId(1), dec(1, 0), dec(10, 0)).unwrap();
    assert_eq!(oms.order(OrderId(1)).unwrap().state, OrderState::Filled);
    let delta = oms.delta().unwrap();
    let position = *oms.position();
    assert_eq!(delta, dec(0, 0));
    assert_eq!(position.net_qty, dec(1, 0));

    oms.on_fill(OrderId(1), dec(1, 0), dec(12, 0)).unwrap();
    assert_eq!(oms.order(OrderId(1)).unwrap().state, OrderState::Filled);
    assert_eq!(oms.delta().unwrap(), delta);
    assert_eq!(oms.position().net_qty, position.net_qty);
    assert_eq!(oms.position().avg_price, position.avg_price);
    assert_eq!(oms.position().realized_pnl, position.realized_pnl);
}

#[test]
fn late_fill_on_a_cancelled_order_is_dropped() {
    let mut oms = OmsEngine::new();
    oms.set_target_position(dec(1, 0));
    assert!(oms.create_order_with_id(OrderId(1), Side::Buy, dec(1, 0), dec(10, 0)));
    oms.on_order_accepted(OrderId(1));
    oms.request_cancel(OrderId(1));
    oms.on_fill(OrderId(1), dec(4, 1), dec(10, 0)).unwrap();
    assert_eq!(oms.order(OrderId(1)).unwrap().state, OrderState::CancelPending);
    assert_eq!(oms.position().net_qty, dec(0, 0));
    assert_eq!(oms.delta().unwrap(), dec(1, 0));
    oms.on_cancel_confirmed(OrderId(1));
    oms.on_fill(OrderId(1), dec(4, 1), dec(10, 0)).unwrap();
    assert_eq!(oms.order(OrderId(1)).unwrap().state, OrderState::Cancelled);
    assert_eq!(oms.position().net_qty, dec(0, 0));
    assert_eq!(oms.delta().unwrap(), dec(1, 0));
}

#[test]
fn cancel_all_cancels_every_live_order() {
    let mut oms = OmsEngine::new();
    oms.set_target_position(dec(0, 0));
    assert!(oms.create_order_with_id(OrderId(1), Side::Buy, dec(1, 0), dec(10, 0)));
    assert!(oms.create_order_with_id(OrderId(2), Side::Sell, dec(2, 0), dec(11, 0)));
    assert!(oms.create_order_with_id(OrderId(3), Side::Sell, dec(1, 0), dec(12, 0)));
    oms.on_order_accepted(OrderId(1));
    oms.on_order_accepted(OrderId(2));
    assert_eq!(oms.delta().unwrap(), dec(1, 0));
    assert_eq!(oms.cancel_all(), vec![OrderId(1), OrderId(2)]);
    assert_eq!(oms.order(OrderId(1)).unwrap().state, OrderState::CancelPending);
    assert_eq!(oms.order(OrderId(2)).unwrap().state, OrderState::CancelPending);
    assert_eq!(oms.order(OrderId(3)).unwrap().state, OrderState::New);
    assert_eq!(oms.delta().unwrap(), dec(0, 0));
    assert!(oms.cancel_all().is_empty());
}

#[test]
fn fill_that_overflows_changes_nothing() {
    let max = Decimal::from_i128_with_scale(79_228_162_514_264_337_593_543_950_335, 0).unwrap();
    let mut oms = OmsEngine::new();
    assert!(oms.create_order_with_id(OrderId(1), Side::Buy, max, dec(1, 0)));
    assert!(oms.create_order_with_id(OrderId(2), Side::Buy, max, dec(1, 0)));
    oms.on_order_accepted(OrderId(1));
    oms.on_order_accepted(OrderId(2));
    oms.on_fill(OrderId(1), max, dec(1, 0)).unwrap();
    assert!(oms.on_fill(OrderId(2), max, dec(1, 0)).is_err());
    assert_eq!(oms.order(OrderId(2)).unwrap().state, OrderState::Open { remaining: max });
    assert_eq!(oms.position().net_qty, max);
}

#[test]
fn exact_delta_is_delta_where_nothing_was_rounded() {
    let mut oms = OmsEngine::new();
    oms.set_target_position(dec(1, 0));
    assert!(oms.reconciles_exactly());
    assert_eq!(oms.exact_delta().unwrap(), dec(1, 0));
    assert!(oms.create_order_with_id(OrderId(1), Side::Buy, dec(1, 0), dec(10, 0)));
    oms.on_order_accepted(OrderId(1));
    assert_eq!(oms.exact_delta().unwrap(), dec(0, 0));
    oms.on_fill(OrderId(1), dec(4, 1), dec(10, 0)).unwrap();
    assert!(oms.reconciles_exactly());
    assert_eq!(oms.exact_delta().unwrap(), dec(0, 0));
    assert_eq!(oms.exact_delta().unwrap(), oms.delta().unwrap());
    oms.request_cancel(OrderId(1));
    assert_eq!(oms.exact_delta().unwrap(), dec(6, 1));
}

#[test]
fn exact_delta_is_none_where_a_step_is_rounded() {
    let wide = Decimal::from_i128_with_scale(79_228_162_514_264_337_593_543_950_335, 1).unwrap();
    let mut oms = OmsEngine::new();
    oms.set_target_position(wide);
    assert!(oms.create_order_with_id(OrderId(1), Side::Buy, dec(1, 2), dec(10, 0)));
    oms.on_order_accepted(OrderId(1));
    assert!(oms.delta().is_ok());
    assert!(!oms.reconciles_exactly());
    assert!(oms.exact_delta().is_none());
}

#[test]
fn target_and_filled_are_read_back() {
    let mut oms = OmsEngine::new();
    assert_eq!(oms.target(), dec(0, 0));
    assert_eq!(oms.filled(), dec(0, 0));
    oms.set_target_position(dec(-5, 1));
    assert!(oms.create_order_with_id(OrderId(1), Side::Sell, dec(5, 1), dec(10, 0)));
    oms.on_order_accepted(OrderId(1));
    oms.on_fill(OrderId(1), dec(2, 1), dec(10, 0)).unwrap();
    assert_eq!(oms.target(), dec(-5, 1));
    assert_eq!(oms.filled(), dec(-2, 1));
    assert!(oms.filled().exact_add(&Side::Sell.signed(dec(3, 1))).is_some());
    let before = oms.exact_delta().unwrap();
    oms.on_fill(OrderId(1), dec(3, 1), dec(10, 0)).unwrap();
    assert_eq!(oms.exact_delta().unwrap(), before);
    assert_eq!(oms.filled(), dec(-5, 1));
}
