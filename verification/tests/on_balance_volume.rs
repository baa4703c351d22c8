use rust_decimal::Decimal;
use ta::Dec;

fn lit(s: &str) -> Decimal {
    Decimal::from_str_exact(s).unwrap()
}

fn dec(s: &str) -> Dec {
    let d = lit(s);
    Dec::from_parts(d.mantissa(), d.scale()).unwrap()
}

fn rd(d: Dec) -> Decimal {
    let (m, s) = d.to_parts();
    Decimal::from_i128_with_scale(m, s)
}

fn round(num: Decimal) -> Decimal {
    num.round_dp_with_strategy(3, rust_decimal::RoundingStrategy::MidpointAwayFromZero)
}

use ta::indicators::OnBalanceVolume;
use ta::{Next, Reset};

fn bar_cv(close: &str, volume: &str) -> ta::Candle {
    ta::Candle::builder()
        .time(0)
        .open(dec(close))
        .high(dec(close))
        .low(dec(close))
        .close(dec(close))
        .volume(dec(volume))
        .build()
        .unwrap()
}

#[test]
fn on_balance_volume_test_next_bar() {
    let mut obv = OnBalanceVolume::new();

    let bar1 = bar_cv("1.5", "1000");
    let bar2 = bar_cv("5", "5000");
    let bar3 = bar_cv("4", "9000");
    let bar4 = bar_cv("4", "4000");

    assert_eq!(rd(obv.next(&bar1).unwrap()), lit("1000.0"));

    assert_eq!(rd(obv.next(&bar2).unwrap()), lit("6000.0"));

    assert_eq!(rd(obv.next(&bar3).unwrap()), lit("-3000.0"));

    assert_eq!(rd(obv.next(&bar4).unwrap()), lit("-3000.0"));
}

#[test]
fn on_balance_volume_test_reset() {
    let mut obv = OnBalanceVolume::new();

    let bar1 = bar_cv("1.5", "1000");
    let bar2 = bar_cv("4", "2000");
    let bar3 = bar_cv("8", "3000");

    assert_eq!(rd(obv.next(&bar1).unwrap()), lit("1000.0"));
    assert_eq!(rd(obv.next(&bar2).unwrap()), lit("3000.0"));
    assert_eq!(rd(obv.next(&bar3).unwrap()), lit("6000.0"));

    obv.reset();

    assert_eq!(rd(obv.next(&bar1).unwrap()), lit("1000.0"));
    assert_eq!(rd(obv.next(&bar2).unwrap()), lit("3000.0"));
    assert_eq!(rd(obv.next(&bar3).unwrap()), lit("6000.0"));
}

#[test]
fn on_balance_volume_test_default() {
    OnBalanceVolume::default();
}

#[test]
fn on_balance_volume_test_display() {
    let obv = OnBalanceVolume::new();
    assert_eq!(obv.label(), "OBV");
}
