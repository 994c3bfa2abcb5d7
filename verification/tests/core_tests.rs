use laminar::decimal::Decimal;
use laminar::oms::reconcile::{OmsCore, Quantity};

fn dec(num: i64, scale: u32) -> Decimal {
    Decimal::new(num, scale)
}

#[test]
fn core_basic_reconciliation() {
    let mut oms = OmsCore::new();

    oms.set_target_position(Quantity(dec(10, 1)));
    assert_eq!(oms.delta().unwrap().0, dec(10, 1));

    oms.add_open_order(Quantity(dec(10, 1)));
    assert_eq!(oms.delta().unwrap().0, dec(0, 1));

    oms.on_fill(Quantity(dec(4, 1))).unwrap();
    assert_eq!(oms.delta().unwrap().0, dec(-4, 1));

    oms.set_target_position(Quantity(dec(2, 1)));
    assert_eq!(oms.delta().unwrap().0, dec(-12, 1));
}

#[test]
fn core_flip_direction() {
    let mut oms = OmsCore::new();

    oms.set_target_position(Quantity(dec(10, 1)));
    oms.add_open_order(Quantity(dec(10, 1)));

    oms.on_fill(Quantity(dec(10, 1))).unwrap();
    oms.remove_open_order(Quantity(dec(10, 1)));

    oms.set_target_position(Quantity(dec(-5, 1)));
    assert_eq!(oms.delta().unwrap().0, dec(-15, 1));
}

#[test]
fn tests_basic_reconciliation() {
    let mut oms = OmsCore::new();

    oms.set_target_position(Quantity(dec(10, 1)));
    assert_eq!(oms.delta().unwrap().0, dec(10, 1));

    oms.add_open_order(Quantity(dec(10, 1)));
    assert_eq!(oms.delta().unwrap().0, dec(0, 1));

    oms.on_fill(Quantity(dec(4, 1))).unwrap();
    assert_eq!(oms.delta().unwrap().0, dec(-4, 1));

    oms.set_target_position(Quantity(dec(2, 1)));
    assert_eq!(oms.delta().unwrap().0, dec(-12, 1));
}

#[test]
fn tests_flip_direction() {
    let mut oms = OmsCore::new();

    oms.set_target_position(Quantity(dec(10, 1)));
    oms.add_open_order(Quantity(dec(10, 1)));

    oms.on_fill(Quantity(dec(10, 1))).unwrap();
    oms.remove_open_order(Quantity(dec(10, 1)));

    oms.set_target_position(Quantity(dec(-5, 1)));
    assert_eq!(oms.delta().unwrap().0, dec(-15, 1));
}

#[test]
fn fresh_core_is_at_zero() {
    let oms = OmsCore::new();
    assert_eq!(oms.delta().unwrap().0, dec(0, 0));
    assert_eq!(oms.open_exposure().unwrap().0, dec(0, 0));
}

#[test]
fn open_exposure_sums_signed_orders() {
    let mut oms = OmsCore::new();
    oms.add_open_order(Quantity(dec(15, 1)));
    oms.add_open_order(Quantity(dec(-5, 1)));
    oms.add_open_order(Quantity(dec(25, 2)));
    assert_eq!(oms.open_exposure().unwrap().0, dec(125, 2));
    oms.clear_open_orders();
    assert_eq!(oms.open_exposure().unwrap().0, dec(0, 0));
}

#[test]
fn remove_takes_the_first_equal_in_value_only() {
    let mut oms = OmsCore::new();
    oms.add_open_order(Quantity(dec(1, 0)));
    oms.add_open_order(Quantity(dec(2, 0)));
    oms.add_open_order(Quantity(dec(10, 1)));
    oms.remove_open_order(Quantity(dec(100, 2)));
    assert_eq!(oms.open_exposure().unwrap().0, dec(3, 0));
    oms.remove_open_order(Quantity(dec(7, 0)));
    assert_eq!(oms.open_exposure().unwrap().0, dec(3, 0));
    oms.remove_open_order(Quantity(dec(1, 0)));
    assert_eq!(oms.open_exposure().unwrap().0, dec(2, 0));
}

#[test]
fn delta_is_target_less_filled_less_open() {
    let mut oms = OmsCore::new();
    oms.set_target_position(Quantity(dec(5, 0)));
    oms.on_fill(Quantity(dec(125, 2))).unwrap();
    oms.on_fill(Quantity(dec(-25, 2))).unwrap();
    oms.add_open_order(Quantity(dec(2, 0)));
    oms.add_open_order(Quantity(dec(-5, 1)));
    assert_eq!(oms.delta().unwrap().0, dec(25, 1));
}

#[test]
fn overflow_is_reported_and_changes_nothing() {
    let max = Decimal::from_i128_with_scale(79_228_162_514_264_337_593_543_950_335, 0).unwrap();
    let mut oms = OmsCore::new();
    oms.on_fill(Quantity(max)).unwrap();
    assert!(oms.on_fill(Quantity(max)).is_err());
    oms.set_target_position(Quantity(dec(0, 0)));
    assert_eq!(oms.delta().unwrap().0, max.neg());
    oms.add_open_order(Quantity(max));
    assert!(oms.delta().is_err());
    assert_eq!(oms.open_exposure().unwrap().0, max);
    oms.add_open_order(Quantity(max));
    assert!(oms.open_exposure().is_err());
}

#[test]
fn quantities_add_and_subtract() {
    let a = Quantity(dec(15, 1));
    let b = Quantity(dec(25, 2));
    assert_eq!(a.checked_add(b).unwrap().0, dec(175, 2));
    assert_eq!(a.checked_sub(b).unwrap().0, dec(125, 2));
    assert_eq!(Quantity::zero().0, dec(0, 0));
    let max = Quantity(Decimal::from_i128_with_scale(79_228_162_514_264_337_593_543_950_335, 0).unwrap());
    assert!(max.checked_add(max).is_none());
    assert!(max.checked_sub(Quantity(max.0.neg())).is_none());
}
