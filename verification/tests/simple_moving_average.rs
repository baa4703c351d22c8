use rust_decimal::Decimal;
use ta::Dec;

fn lit(s: &str) -> Decimal {
    Decimal::from_str_exact(s).unwrap()
}

fn dec(s: &str) -> Dec {
    let d = lit(s);
    Dec::from_parts(d.mantissa(), d.scale()).unwrap()
}

fn rd(d: Dec) -> Decimal {
    let (m, s) = d.to_parts();
    Decimal::from_i128_with_scale(m, s)
}

fn round(num: Decimal) -> Decimal {
    num.round_dp_with_strategy(3, rust_decimal::RoundingStrategy::MidpointAwayFromZero)
}

fn bar_close(close: &str) -> ta::Candle {
    ta::Candle::builder()
        .time(0)
        .open(dec(close))
        .high(dec(close))
        .low(dec(close))
        .close(dec(close))
        .volume(dec("0.0"))
        .build()
        .unwrap()
}

use ta::indicators::SimpleMovingAverage;
use ta::{Next, Period, Reset};

#[test]
fn simple_moving_average_test_new() {
    assert!(SimpleMovingAverage::new(0).is_err());
    assert!(SimpleMovingAverage::new(1).is_ok());
}

#[test]
fn simple_moving_average_test_next() {
    let mut sma = SimpleMovingAverage::new(4).unwrap();
    assert_eq!(rd(sma.next(dec("4.0")).unwrap()), lit("4.0"));
    assert_eq!(rd(sma.next(dec("5.0")).unwrap()), lit("4.5"));
    assert_eq!(rd(sma.next(dec("6.0")).unwrap()), lit("5.0"));
    assert_eq!(rd(sma.next(dec("6.0")).unwrap()), lit("5.25"));
    assert_eq!(rd(sma.next(dec("6.0")).unwrap()), lit("5.75"));
    assert_eq!(rd(sma.next(dec("6.0")).unwrap()), lit("6.0"));
    assert_eq!(rd(sma.next(dec("2.0")).unwrap()), lit("5.0"));
}

#[test]
fn simple_moving_average_test_next_with_bars() {
    let mut sma = SimpleMovingAverage::new(3).unwrap();
    assert_eq!(rd(sma.next(&bar_close("4.0")).unwrap()), lit("4.0"));
    assert_eq!(rd(sma.next(&bar_close("4.0")).unwrap()), lit("4.0"));
    assert_eq!(rd(sma.next(&bar_close("7.0")).unwrap()), lit("5.0"));
    assert_eq!(rd(sma.next(&bar_close("1.0")).unwrap()), lit("4.0"));
}

#[test]
fn simple_moving_average_test_reset() {
    let mut sma = SimpleMovingAverage::new(4).unwrap();
    assert_eq!(rd(sma.next(dec("4.0")).unwrap()), lit("4.0"));
    assert_eq!(rd(sma.next(dec("5.0")).unwrap()), lit("4.5"));
    assert_eq!(rd(sma.next(dec("6.0")).unwrap()), lit("5.0"));

    sma.reset();
    assert_eq!(rd(sma.next(dec("99.0")).unwrap()), lit("99.0"));
}

#[test]
fn simple_moving_average_test_default() {
    SimpleMovingAverage::default();
}

#[test]
fn simple_moving_average_test_display() {
    let sma = SimpleMovingAverage::new(5).unwrap();
    assert_eq!(sma.label(), "SMA(5)");
}

#[test]
fn simple_moving_average_replay_after_reset() {
    let inputs = ["4.0", "5.5", "6.25", "1.0", "2.5", "9.0"];
    let mut sma = SimpleMovingAverage::new(3).unwrap();
    let first: Vec<Decimal> = inputs.iter().map(|s| rd(sma.next(dec(s)).unwrap())).collect();
    sma.reset();
    let second: Vec<Decimal> = inputs.iter().map(|s| rd(sma.next(dec(s)).unwrap())).collect();
    assert_eq!(first, second);
}

#[test]
fn simple_moving_average_period_stable_under_stream() {
    let mut sma = SimpleMovingAverage::new(4).unwrap();
    assert_eq!(sma.period(), 4);
    for i in 0..100 {
        sma.next(Dec::new(i, 0)).unwrap();
    }
    assert_eq!(sma.period(), 4);
}

#[test]
fn simple_moving_average_period_one_tracks_input() {
    let mut sma = SimpleMovingAverage::new(1).unwrap();
    assert_eq!(rd(sma.next(dec("7.25")).unwrap()), lit("7.25"));
    assert_eq!(rd(sma.next(dec("-3.5")).unwrap()), lit("-3.5"));
}
