use rust_decimal::Decimal;
use ta::Dec;

fn lit(s: &str) -> Decimal {
    Decimal::from_str_exact(s).unwrap()
}

fn dec(s: &str) -> Dec {
    let d = lit(s);
    Dec::from_parts(d.mantissa(), d.scale()).unwrap()
}

fn rd(d: Dec) -> Decimal {
    let (m, s) = d.to_parts();
    Decimal::from_i128_with_scale(m, s)
}

fn round(num: Decimal) -> Decimal {
    num.round_dp_with_strategy(3, rust_decimal::RoundingStrategy::MidpointAwayFromZero)
}

use ta::indicators::BollingerBands;
use ta::{Next, Reset};

#[test]
fn bollinger_bands_test_new() {
    assert!(BollingerBands::new(0, dec("2.0")).is_err());
    assert!(BollingerBands::new(1, dec("2.0")).is_ok());
    assert!(BollingerBands::new(2, dec("2.0")).is_ok());
}

#[test]
fn bollinger_bands_test_next() {
    let mut bb = BollingerBands::new(3, dec("2.0")).unwrap();

    let a = bb.next(dec("2.0")).unwrap();
    let b = bb.next(dec("5.0")).unwrap();
    let c = bb.next(dec("1.0")).unwrap();
    let d = bb.next(dec("6.25")).unwrap();

    assert_eq!(round(rd(a.average)), lit("2.0"));
    assert_eq!(round(rd(b.average)), lit("3.5"));
    assert_eq!(round(rd(c.average)), lit("2.667"));
    assert_eq!(round(rd(d.average)), lit("4.083"));

    assert_eq!(round(rd(a.upper)), lit("2.0"));
    assert_eq!(round(rd(b.upper)), lit("6.5"));
    assert_eq!(round(rd(c.upper)), lit("6.066"));
    assert_eq!(round(rd(d.upper)), lit("8.562"));

    assert_eq!(round(rd(a.lower)), lit("2.0"));
    assert_eq!(round(rd(b.lower)), lit("0.5"));
    assert_eq!(round(rd(c.lower)), lit("-0.733"));
    assert_eq!(round(rd(d.lower)), lit("-0.395"));
}

#[test]
fn bollinger_bands_test_reset() {
    let mut bb = BollingerBands::new(5, dec("2.0")).unwrap();

    let out = bb.next(dec("3.0")).unwrap();

    assert_eq!(rd(out.average), lit("3.0"));
    assert_eq!(rd(out.upper), lit("3.0"));
    assert_eq!(rd(out.lower), lit("3.0"));

    bb.next(dec("2.5")).unwrap();
    bb.next(dec("3.5")).unwrap();
    bb.next(dec("4.0")).unwrap();

    let out = bb.next(dec("2.0")).unwrap();

    assert_eq!(rd(out.average), lit("3.0"));
    assert_eq!(round(rd(out.upper)), lit("4.414"));
    assert_eq!(round(rd(out.lower)), lit("1.586"));

    bb.reset();
    let out = bb.next(dec("3.0")).unwrap();
    assert_eq!(rd(out.average), lit("3.0"));
    assert_eq!(rd(out.upper), lit("3.0"));
    assert_eq!(rd(out.lower), lit("3.0"));
}

#[test]
fn bollinger_bands_test_default() {
    BollingerBands::default();
}

#[test]
fn bollinger_bands_test_display() {
    let bb = BollingerBands::new(10, Dec::new(3, 0)).unwrap();
    assert_eq!(bb.label(), "BB(10, 3)");
}

#[test]
fn bollinger_bands_multiplier_reported() {
    let bb = BollingerBands::new(4, dec("1.5")).unwrap();
    assert_eq!(rd(bb.multiplier()), lit("1.5"));
}

#[test]
fn bollinger_bands_label_keeps_multiplier_scale() {
    let bb = BollingerBands::new(3, dec("2.0")).unwrap();
    assert_eq!(bb.label(), "BB(3, 2.0)");
    let bb = BollingerBands::new(2, dec("-1.5")).unwrap();
    assert_eq!(bb.label(), "BB(2, -1.5)");
    let bb = BollingerBands::new(7, dec("0.25")).unwrap();
    assert_eq!(bb.label(), "BB(7, 0.25)");
}

#[test]
fn bollinger_bands_first_advance_collapses_onto_input() {
    let mut bb = BollingerBands::new(4, dec("2.5")).unwrap();
    let out = bb.next(dec("-3.0")).unwrap();
    assert_eq!(rd(out.average), lit("-3.0"));
    assert_eq!(rd(out.upper), lit("-3.0"));
    assert_eq!(rd(out.lower), lit("-3.0"));
}
