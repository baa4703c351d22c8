use rust_decimal::Decimal;
use ta::Dec;

fn lit(s: &str) -> Decimal {
    Decimal::from_str_exact(s).unwrap()
}

fn dec(s: &str) -> Dec {
    let d = lit(s);
    Dec::from_parts(d.mantissa(), d.scale()).unwrap()
}

fn rd(d: Dec) -> Decimal {
    let (m, s) = d.to_parts();
    Decimal::from_i128_with_scale(m, s)
}

fn round(num: Decimal) -> Decimal {
    num.round_dp_with_strategy(3, rust_decimal::RoundingStrategy::MidpointAwayFromZero)
}

fn bar_hlc(high: &str, low: &str, close: &str) -> ta::Candle {
    ta::Candle::builder()
        .time(0)
        .open(dec(close))
        .high(dec(high))
        .low(dec(low))
        .close(dec(close))
        .volume(dec("0.0"))
        .build()
        .unwrap()
}

use ta::indicators::KeltnerChannel;
use ta::{Next, Reset};

#[test]
fn keltner_channel_test_new() {
    assert!(KeltnerChannel::new(0, dec("2.0")).is_err());
    assert!(KeltnerChannel::new(1, dec("2.0")).is_ok());
    assert!(KeltnerChannel::new(2, dec("2.0")).is_ok());
}

#[test]
fn keltner_channel_test_next() {
    let mut kc = KeltnerChannel::new(3, dec("2.0")).unwrap();

    let a = kc.next(dec("2.0")).unwrap();
    let b = kc.next(dec("5.0")).unwrap();
    let c = kc.next(dec("1.0")).unwrap();
    let d = kc.next(dec("6.25")).unwrap();

    assert_eq!(round(rd(a.average)), lit("2.0"));
    assert_eq!(round(rd(b.average)), lit("3.5"));
    assert_eq!(round(rd(c.average)), lit("2.25"));
    assert_eq!(round(rd(d.average)), lit("4.25"));

    assert_eq!(round(rd(a.upper)), lit("2.0"));
    assert_eq!(round(rd(b.upper)), lit("6.5"));
    assert_eq!(round(rd(c.upper)), lit("7.75"));
    assert_eq!(round(rd(d.upper)), lit("12.25"));

    assert_eq!(round(rd(a.lower)), lit("2.0"));
    assert_eq!(round(rd(b.lower)), lit("0.5"));
    assert_eq!(round(rd(c.lower)), lit("-3.25"));
    assert_eq!(round(rd(d.lower)), lit("-3.75"));
}

#[test]
fn test_next_with_data_item() {
    let mut kc = KeltnerChannel::new(3, dec("2.0")).unwrap();

    let dt1 = bar_hlc("1.7", "1.2", "1.3");
    let o1 = kc.next(&dt1).unwrap();
    assert_eq!(round(rd(o1.average)), lit("1.4"));
    assert_eq!(round(rd(o1.lower)), lit("0.4"));
    assert_eq!(round(rd(o1.upper)), lit("2.4"));

    let dt2 = bar_hlc("1.8", "1.3", "1.4");
    let o2 = kc.next(&dt2).unwrap();
    assert_eq!(round(rd(o2.average)), lit("1.45"));
    assert_eq!(round(rd(o2.lower)), lit("0.45"));
    assert_eq!(round(rd(o2.upper)), lit("2.45"));

    let dt3 = bar_hlc("1.9", "1.4", "1.5");
    let o3 = kc.next(&dt3).unwrap();
    assert_eq!(round(rd(o3.average)), lit("1.525"));
    assert_eq!(round(rd(o3.lower)), lit("0.525"));
    assert_eq!(round(rd(o3.upper)), lit("2.525"));
}

#[test]
fn keltner_channel_test_reset() {
    let mut kc = KeltnerChannel::new(5, dec("2.0")).unwrap();

    let out = kc.next(dec("3.0")).unwrap();

    assert_eq!(rd(out.average), lit("3.0"));
    assert_eq!(rd(out.upper), lit("3.0"));
    assert_eq!(rd(out.lower), lit("3.0"));

    kc.next(dec("2.5")).unwrap();
    kc.next(dec("3.5")).unwrap();
    kc.next(dec("4.0")).unwrap();

    let out = kc.next(dec("2.0")).unwrap();

    assert_eq!(round(rd(out.average)), lit("2.914"));
    assert_eq!(round(rd(out.upper)), lit("4.864"));
    assert_eq!(round(rd(out.lower)), lit("0.963"));

    kc.reset();
    let out = kc.next(dec("3.0")).unwrap();
    assert_eq!(rd(out.average), lit("3.0"));
    assert_eq!(rd(out.lower), lit("3.0"));
    assert_eq!(rd(out.upper), lit("3.0"));
}

#[test]
fn keltner_channel_test_default() {
    KeltnerChannel::default();
}

#[test]
fn keltner_channel_test_display() {
    let kc = KeltnerChannel::new(10, Dec::new(3, 0)).unwrap();
    assert_eq!(kc.label(), "KC(10, 3)");
}
