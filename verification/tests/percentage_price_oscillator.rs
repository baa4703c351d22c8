use rust_decimal::Decimal;
use ta::Dec;

fn lit(s: &str) -> Decimal {
    Decimal::from_str_exact(s).unwrap()
}

fn dec(s: &str) -> Dec {
    let d = lit(s);
    Dec::from_parts(d.mantissa(), d.scale()).unwrap()
}

fn rd(d: Dec) -> Decimal {
    let (m, s) = d.to_parts();
    Decimal::from_i128_with_scale(m, s)
}

fn round(num: Decimal) -> Decimal {
    num.round_dp_with_strategy(3, rust_decimal::RoundingStrategy::MidpointAwayFromZero)
}

use ta::indicators::PercentagePriceOscillator as Ppo;
use ta::{Next, Reset};

fn round2(nums: (Dec, Dec, Dec)) -> (Decimal, Decimal, Decimal) {
    let strategy = rust_decimal::RoundingStrategy::MidpointAwayFromZero;
    (
        rd(nums.0).round_dp_with_strategy(2, strategy),
        rd(nums.1).round_dp_with_strategy(2, strategy),
        rd(nums.2).round_dp_with_strategy(2, strategy),
    )
}

#[test]
fn percentage_price_oscillator_test_new() {
    assert!(Ppo::new(0, 1, 1).is_err());
    assert!(Ppo::new(1, 0, 1).is_err());
    assert!(Ppo::new(1, 1, 0).is_err());
    assert!(Ppo::new(1, 1, 1).is_ok());
}

#[test]
fn percentage_price_oscillator_test_next() {
    let mut ppo = Ppo::new(3, 6, 4).unwrap();

    assert_eq!(
        round2(ppo.next(dec("2.0")).unwrap().into_tuple()),
        (lit("0.0"), lit("0.0"), lit("0.0"))
    );
    assert_eq!(
        round2(ppo.next(dec("3.0")).unwrap().into_tuple()),
        (lit("9.38"), lit("3.75"), lit("5.63"))
    );
    assert_eq!(
        round2(ppo.next(dec("4.2")).unwrap().into_tuple()),
        (lit("18.26"), lit("9.56"), lit("8.71"))
    );
    assert_eq!(
        round2(ppo.next(dec("8.0")).unwrap().into_tuple()),
        (lit("31.70"), lit("18.41"), lit("13.29"))
    );
    assert_eq!(
        round2(ppo.next(dec("6.7")).unwrap().into_tuple()),
        (lit("23.94"), lit("20.63"), lit("3.32"))
    );
    assert_eq!(
        round2(ppo.next(dec("6.5")).unwrap().into_tuple()),
        (lit("16.98"), lit("19.17"), lit("-2.19"))
    );
}

#[test]
fn percentage_price_oscillator_test_reset() {
    let mut ppo = Ppo::new(3, 6, 4).unwrap();

    assert_eq!(
        round2(ppo.next(dec("2.0")).unwrap().into_tuple()),
        (lit("0.0"), lit("0.0"), lit("0.0"))
    );
    assert_eq!(
        round2(ppo.next(dec("3.0")).unwrap().into_tuple()),
        (lit("9.38"), lit("3.75"), lit("5.63"))
    );

    ppo.reset();

    assert_eq!(
        round2(ppo.next(dec("2.0")).unwrap().into_tuple()),
        (lit("0.0"), lit("0.0"), lit("0.0"))
    );
    assert_eq!(
        round2(ppo.next(dec("3.0")).unwrap().into_tuple()),
        (lit("9.38"), lit("3.75"), lit("5.63"))
    );
}

#[test]
fn percentage_price_oscillator_test_default() {
    Ppo::default();
}

#[test]
fn percentage_price_oscillator_test_display() {
    let indicator = Ppo::new(13, 30, 10).unwrap();
    assert_eq!(indicator.label(), "PPO(13, 30, 10)");
}

#[test]
fn percentage_price_oscillator_zero_slow_ema_reports_no_value() {
    let mut ppo = Ppo::new(2, 3, 2).unwrap();
    assert!(ppo.next(dec("0.0")).is_none());
}
