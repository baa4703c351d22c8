use rust_decimal::Decimal;
use ta::Dec;

fn lit(s: &str) -> Decimal {
    Decimal::from_str_exact(s).unwrap()
}

fn dec(s: &str) -> Dec {
    let d = lit(s);
    Dec::from_parts(d.mantissa(), d.scale()).unwrap()
}

fn rd(d: Dec) -> Decimal {
    let (m, s) = d.to_parts();
    Decimal::from_i128_with_scale(m, s)
}

fn round(num: Decimal) -> Decimal {
    num.round_dp_with_strategy(3, rust_decimal::RoundingStrategy::MidpointAwayFromZero)
}

use ta::indicators::MovingAverageConvergenceDivergence as Macd;
use ta::{Next, Reset};

fn round2(nums: (Dec, Dec, Dec)) -> (Decimal, Decimal, Decimal) {
    let strategy = rust_decimal::RoundingStrategy::MidpointAwayFromZero;
    (
        rd(nums.0).round_dp_with_strategy(2, strategy),
        rd(nums.1).round_dp_with_strategy(2, strategy),
        rd(nums.2).round_dp_with_strategy(2, strategy),
    )
}

#[test]
fn moving_average_convergence_divergence_test_new() {
    assert!(Macd::new(0, 1, 1).is_err());
    assert!(Macd::new(1, 0, 1).is_err());
    assert!(Macd::new(1, 1, 0).is_err());
    assert!(Macd::new(1, 1, 1).is_ok());
}

#[test]
fn test_macd() {
    let mut macd = Macd::new(3, 6, 4).unwrap();

    assert_eq!(
        round2(macd.next(dec("2.0")).unwrap().into_tuple()),
        (lit("0.0"), lit("0.0"), lit("0.0"))
    );
    assert_eq!(
        round2(macd.next(dec("3.0")).unwrap().into_tuple()),
        (lit("0.21"), lit("0.09"), lit("0.13"))
    );
    assert_eq!(
        round2(macd.next(dec("4.2")).unwrap().into_tuple()),
        (lit("0.52"), lit("0.26"), lit("0.26"))
    );
    assert_eq!(
        round2(macd.next(dec("7.0")).unwrap().into_tuple()),
        (lit("1.15"), lit("0.62"), lit("0.54"))
    );
    assert_eq!(
        round2(macd.next(dec("6.7")).unwrap().into_tuple()),
        (lit("1.15"), lit("0.83"), lit("0.32"))
    );
    assert_eq!(
        round2(macd.next(dec("6.5")).unwrap().into_tuple()),
        (lit("0.94"), lit("0.87"), lit("0.07"))
    );
}

#[test]
fn moving_average_convergence_divergence_test_reset() {
    let mut macd = Macd::new(3, 6, 4).unwrap();

    assert_eq!(
        round2(macd.next(dec("2.0")).unwrap().into_tuple()),
        (lit("0.0"), lit("0.0"), lit("0.0"))
    );
    assert_eq!(
        round2(macd.next(dec("3.0")).unwrap().into_tuple()),
        (lit("0.21"), lit("0.09"), lit("0.13"))
    );

    macd.reset();

    assert_eq!(
        round2(macd.next(dec("2.0")).unwrap().into_tuple()),
        (lit("0.0"), lit("0.0"), lit("0.0"))
    );
    assert_eq!(
        round2(macd.next(dec("3.0")).unwrap().into_tuple()),
        (lit("0.21"), lit("0.09"), lit("0.13"))
    );
}

#[test]
fn moving_average_convergence_divergence_test_default() {
    Macd::default();
}

#[test]
fn moving_average_convergence_divergence_test_display() {
    let indicator = Macd::new(13, 30, 10).unwrap();
    assert_eq!(indicator.label(), "MACD(13, 30, 10)");
}
