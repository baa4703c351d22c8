use rust_decimal::Decimal;
use ta::Dec;

fn lit(s: &str) -> Decimal {
    Decimal::from_str_exact(s).unwrap()
}

fn dec(s: &str) -> Dec {
    let d = lit(s);
    Dec::from_parts(d.mantissa(), d.scale()).unwrap()
}

fn rd(d: Dec) -> Decimal {
    let (m, s) = d.to_parts();
    Decimal::from_i128_with_scale(m, s)
}

fn round(num: Decimal) -> Decimal {
    num.round_dp_with_strategy(3, rust_decimal::RoundingStrategy::MidpointAwayFromZero)
}

fn bar_hlc(high: &str, low: &str, close: &str) -> ta::Candle {
    ta::Candle::builder()
        .time(0)
        .open(dec(close))
        .high(dec(high))
        .low(dec(low))
        .close(dec(close))
        .volume(dec("0.0"))
        .build()
        .unwrap()
}

use ta::indicators::AverageTrueRange;
use ta::{Next, Reset};

#[test]
fn average_true_range_test_new() {
    assert!(AverageTrueRange::new(0).is_err());
    assert!(AverageTrueRange::new(1).is_ok());
}

#[test]
fn average_true_range_test_next() {
    let mut atr = AverageTrueRange::new(3).unwrap();

    let bar1 = bar_hlc("10", "7.5", "9");
    let bar2 = bar_hlc("11", "9", "9.5");
    let bar3 = bar_hlc("9", "5", "8");

    assert_eq!(rd(atr.next(&bar1).unwrap()), lit("2.5"));
    assert_eq!(rd(atr.next(&bar2).unwrap()), lit("2.25"));
    assert_eq!(rd(atr.next(&bar3).unwrap()), lit("3.375"));
}

#[test]
fn average_true_range_test_reset() {
    let mut atr = AverageTrueRange::new(9).unwrap();

    let bar1 = bar_hlc("10", "7.5", "9");
    let bar2 = bar_hlc("11", "9", "9.5");

    atr.next(&bar1).unwrap();
    atr.next(&bar2).unwrap();

    atr.reset();
    let bar3 = bar_hlc("60", "15", "51");
    assert_eq!(rd(atr.next(&bar3).unwrap()), lit("45.0"));
}

#[test]
fn average_true_range_test_default() {
    AverageTrueRange::default();
}

#[test]
fn average_true_range_test_display() {
    let indicator = AverageTrueRange::new(8).unwrap();
    assert_eq!(indicator.label(), "ATR(8)");
}
