use rust_decimal::Decimal;
use ta::Dec;

fn lit(s: &str) -> Decimal {
    Decimal::from_str_exact(s).unwrap()
}

fn dec(s: &str) -> Dec {
    let d = lit(s);
    Dec::from_parts(d.mantissa(), d.scale()).unwrap()
}

fn rd(d: Dec) -> Decimal {
    let (m, s) = d.to_parts();
    Decimal::from_i128_with_scale(m, s)
}

fn round(num: Decimal) -> Decimal {
    num.round_dp_with_strategy(3, rust_decimal::RoundingStrategy::MidpointAwayFromZero)
}

fn bar_hlc(high: &str, low: &str, close: &str) -> ta::Candle {
    ta::Candle::builder()
        .time(0)
        .open(dec(close))
        .high(dec(high))
        .low(dec(low))
        .close(dec(close))
        .volume(dec("0.0"))
        .build()
        .unwrap()
}

use ta::indicators::TrueRange;
use ta::{Next, Reset};

#[test]
fn true_range_test_next_f64() {
    let mut tr = TrueRange::new();
    assert_eq!(round(rd(tr.next(dec("2.5")).unwrap())), lit("0.0"));
    assert_eq!(round(rd(tr.next(dec("3.6")).unwrap())), lit("1.1"));
    assert_eq!(round(rd(tr.next(dec("3.3")).unwrap())), lit("0.3"));
}

#[test]
fn true_range_test_next_bar() {
    let mut tr = TrueRange::new();

    let bar1 = bar_hlc("10", "7.5", "9");
    let bar2 = bar_hlc("11", "9", "9.5");
    let bar3 = bar_hlc("9", "5", "8");

    assert_eq!(rd(tr.next(&bar1).unwrap()), lit("2.5"));
    assert_eq!(rd(tr.next(&bar2).unwrap()), lit("2.0"));
    assert_eq!(rd(tr.next(&bar3).unwrap()), lit("4.5"));
}

#[test]
fn true_range_test_reset() {
    let mut tr = TrueRange::new();

    let bar1 = bar_hlc("10", "7.5", "9");
    let bar2 = bar_hlc("11", "9", "9.5");

    tr.next(&bar1).unwrap();
    tr.next(&bar2).unwrap();

    tr.reset();
    let bar3 = bar_hlc("60", "15", "51");
    assert_eq!(rd(tr.next(&bar3).unwrap()), lit("45.0"));
}

#[test]
fn true_range_test_default() {
    TrueRange::default();
}

#[test]
fn true_range_test_display() {
    let indicator = TrueRange::new();
    assert_eq!(indicator.label(), "TRUE_RANGE()");
}
