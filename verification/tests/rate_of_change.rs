use rust_decimal::Decimal;
use ta::Dec;

fn lit(s: &str) -> Decimal {
    Decimal::from_str_exact(s).unwrap()
}

fn dec(s: &str) -> Dec {
    let d = lit(s);
    Dec::from_parts(d.mantissa(), d.scale()).unwrap()
}

fn rd(d: Dec) -> Decimal {
    let (m, s) = d.to_parts();
    Decimal::from_i128_with_scale(m, s)
}

fn round(num: Decimal) -> Decimal {
    num.round_dp_with_strategy(3, rust_decimal::RoundingStrategy::MidpointAwayFromZero)
}

fn bar_close(close: &str) -> ta::Candle {
    ta::Candle::builder()
        .time(0)
        .open(dec(close))
        .high(dec(close))
        .low(dec(close))
        .close(dec(close))
        .volume(dec("0.0"))
        .build()
        .unwrap()
}

use ta::indicators::RateOfChange;
use ta::{Next, Reset};

#[test]
fn rate_of_change_test_new() {
    assert!(RateOfChange::new(0).is_err());
    assert!(RateOfChange::new(1).is_ok());
    assert!(RateOfChange::new(100_000).is_ok());
}

#[test]
fn rate_of_change_test_next_f64() {
    let mut roc = RateOfChange::new(3).unwrap();

    assert_eq!(round(rd(roc.next(dec("10.0")).unwrap())), lit("0.0"));
    assert_eq!(round(rd(roc.next(dec("10.4")).unwrap())), lit("4.0"));
    assert_eq!(round(rd(roc.next(dec("10.57")).unwrap())), lit("5.7"));
    assert_eq!(round(rd(roc.next(dec("10.8")).unwrap())), lit("8.0"));
    assert_eq!(round(rd(roc.next(dec("10.9")).unwrap())), lit("4.808"));
    assert_eq!(round(rd(roc.next(dec("10.0")).unwrap())), lit("-5.393"));
}

#[test]
fn rate_of_change_test_next_bar() {
    let mut roc = RateOfChange::new(3).unwrap();

    assert_eq!(round(rd(roc.next(&bar_close("10.0")).unwrap())), lit("0.0"));
    assert_eq!(round(rd(roc.next(&bar_close("10.4")).unwrap())), lit("4.0"));
    assert_eq!(round(rd(roc.next(&bar_close("10.57")).unwrap())), lit("5.7"));
}

#[test]
fn rate_of_change_test_reset() {
    let mut roc = RateOfChange::new(3).unwrap();

    roc.next(dec("12.3")).unwrap();
    roc.next(dec("15.0")).unwrap();

    roc.reset();

    assert_eq!(round(rd(roc.next(dec("10.0")).unwrap())), lit("0.0"));
    assert_eq!(round(rd(roc.next(dec("10.4")).unwrap())), lit("4.0"));
    assert_eq!(round(rd(roc.next(dec("10.57")).unwrap())), lit("5.7"));
}

#[test]
fn rate_of_change_zero_reference_reports_no_value() {
    let mut roc = RateOfChange::new(2).unwrap();
    assert!(roc.next(dec("0.0")).is_none());

    roc.next(dec("5.0")).unwrap();
    roc.next(dec("0.0")).unwrap();
    roc.next(dec("7.0")).unwrap();
    assert!(roc.next(dec("9.0")).is_none());
}

#[test]
fn rate_of_change_first_advance_is_exact_zero() {
    let mut roc = RateOfChange::new(5).unwrap();
    let first = roc.next(dec("-2.5")).unwrap();
    assert_eq!(first.to_parts(), (0, 0));
}
