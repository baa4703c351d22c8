use rust_decimal::Decimal;
use ta::Dec;

fn lit(s: &str) -> Decimal {
    Decimal::from_str_exact(s).unwrap()
}

fn dec(s: &str) -> Dec {
    let d = lit(s);
    Dec::from_parts(d.mantissa(), d.scale()).unwrap()
}

fn rd(d: Dec) -> Decimal {
    let (m, s) = d.to_parts();
    Decimal::from_i128_with_scale(m, s)
}

fn round(num: Decimal) -> Decimal {
    num.round_dp_with_strategy(3, rust_decimal::RoundingStrategy::MidpointAwayFromZero)
}

fn bar_close(close: &str) -> ta::Candle {
    ta::Candle::builder()
        .time(0)
        .open(dec(close))
        .high(dec(close))
        .low(dec(close))
        .close(dec(close))
        .volume(dec("0.0"))
        .build()
        .unwrap()
}

use ta::indicators::StandardDeviation;
use ta::{Next, Reset};

#[test]
fn standard_deviation_test_new() {
    assert!(StandardDeviation::new(0).is_err());
    assert!(StandardDeviation::new(1).is_ok());
}

#[test]
fn standard_deviation_test_next() {
    let mut sd = StandardDeviation::new(4).unwrap();
    assert_eq!(rd(sd.next(dec("10.0")).unwrap()), lit("0.0"));
    assert_eq!(rd(sd.next(dec("20.0")).unwrap()), lit("5.0"));
    assert_eq!(round(rd(sd.next(dec("30.0")).unwrap())), lit("8.165"));
    assert_eq!(round(rd(sd.next(dec("20.0")).unwrap())), lit("7.071"));
    assert_eq!(round(rd(sd.next(dec("10.0")).unwrap())), lit("7.071"));
    assert_eq!(round(rd(sd.next(dec("100.0")).unwrap())), lit("35.355"));
}

#[test]
fn test_next_floating_point_error() {
    let mut sd = StandardDeviation::new(6).unwrap();
    assert_eq!(rd(sd.next(dec("1.872")).unwrap()), lit("0.0"));
    assert_eq!(round(rd(sd.next(dec("1.0")).unwrap())), lit("0.436"));
    assert_eq!(round(rd(sd.next(dec("1.0")).unwrap())), lit("0.411"));
    assert_eq!(round(rd(sd.next(dec("1.0")).unwrap())), lit("0.378"));
    assert_eq!(round(rd(sd.next(dec("1.0")).unwrap())), lit("0.349"));
    assert_eq!(round(rd(sd.next(dec("1.0")).unwrap())), lit("0.325"));
    assert_eq!(round(rd(sd.next(dec("1.0")).unwrap())), lit("0.0"));
}

#[test]
fn standard_deviation_test_next_with_bars() {
    let mut sd = StandardDeviation::new(4).unwrap();
    assert_eq!(rd(sd.next(&bar_close("10.0")).unwrap()), lit("0.0"));
    assert_eq!(rd(sd.next(&bar_close("20.0")).unwrap()), lit("5.0"));
    assert_eq!(round(rd(sd.next(&bar_close("30.0")).unwrap())), lit("8.165"));
    assert_eq!(round(rd(sd.next(&bar_close("20.0")).unwrap())), lit("7.071"));
    assert_eq!(round(rd(sd.next(&bar_close("10.0")).unwrap())), lit("7.071"));
    assert_eq!(round(rd(sd.next(&bar_close("100.0")).unwrap())), lit("35.355"));
}

#[test]
fn test_next_same_values() {
    let mut sd = StandardDeviation::new(3).unwrap();
    assert_eq!(rd(sd.next(dec("4.2")).unwrap()), lit("0.0"));
    assert_eq!(rd(sd.next(dec("4.2")).unwrap()), lit("0.0"));
    assert_eq!(rd(sd.next(dec("4.2")).unwrap()), lit("0.0"));
    assert_eq!(rd(sd.next(dec("4.2")).unwrap()), lit("0.0"));
}

#[test]
fn standard_deviation_test_reset() {
    let mut sd = StandardDeviation::new(4).unwrap();
    assert_eq!(rd(sd.next(dec("10.0")).unwrap()), lit("0.0"));
    assert_eq!(rd(sd.next(dec("20.0")).unwrap()), lit("5.0"));
    assert_eq!(round(rd(sd.next(dec("30.0")).unwrap())), lit("8.165"));

    sd.reset();
    assert_eq!(rd(sd.next(dec("20.0")).unwrap()), lit("0.0"));
}

#[test]
fn standard_deviation_test_default() {
    StandardDeviation::default();
}

#[test]
fn standard_deviation_test_display() {
    let sd = StandardDeviation::new(5).unwrap();
    assert_eq!(sd.label(), "SD(5)");
}

#[test]
fn standard_deviation_mean_matches_average() {
    let mut sd = StandardDeviation::new(4).unwrap();
    sd.next(dec("10.0")).unwrap();
    sd.next(dec("20.0")).unwrap();
    assert_eq!(rd(sd.mean()), lit("15.0"));
}

#[test]
fn standard_deviation_first_advance_is_exact_zero() {
    let mut sd = StandardDeviation::new(6).unwrap();
    assert_eq!(rd(sd.next(dec("7.37")).unwrap()).mantissa(), 0);
    let mut sd = StandardDeviation::new(2).unwrap();
    assert_eq!(rd(sd.next(dec("-0.004")).unwrap()).mantissa(), 0);
}
