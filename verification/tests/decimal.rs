use rust_decimal::Decimal;
use ta::Dec;

fn lit(s: &str) -> Decimal {
    Decimal::from_str_exact(s).unwrap()
}

fn dec(s: &str) -> Dec {
    let d = lit(s);
    Dec::from_parts(d.mantissa(), d.scale()).unwrap()
}

fn rd(d: Dec) -> Decimal {
    let (m, s) = d.to_parts();
    Decimal::from_i128_with_scale(m, s)
}

#[test]
fn decimal_roundtrip_keeps_mantissa_and_scale() {
    let d = Dec::new(-12345, 4);
    let (m, s) = d.to_parts();
    assert_eq!(m, -12345);
    assert_eq!(s, 4);
    assert_eq!(rd(d), lit("-1.2345"));
}

#[test]
fn decimal_from_parts_rejects_out_of_range() {
    assert!(Dec::from_parts(1, 29).is_none());
    assert!(Dec::from_parts(0x1000000000000000000000000i128, 0).is_none());
    assert!(Dec::from_parts(-0x1000000000000000000000000i128, 0).is_none());
    assert!(Dec::from_parts(0xFFFFFFFFFFFFFFFFFFFFFFFFi128, 28).is_some());
}

#[test]
fn decimal_abs_drops_the_sign_only() {
    assert_eq!(rd(dec("-3.50").abs()), lit("3.50"));
    assert_eq!(dec("-3.50").abs().to_parts(), (350, 2));
    assert_eq!(rd(dec("7.1").abs()), lit("7.1"));
    assert_eq!(rd(dec("0.0").abs()), lit("0.0"));
}

#[test]
fn helpers_max3_picks_the_numeric_maximum() {
    let r = ta::helpers::max3(dec("1.5"), dec("9.25"), dec("-20"));
    assert_eq!(rd(r), lit("9.25"));
    let r = ta::helpers::max3(dec("-1"), dec("-2"), dec("-0.5"));
    assert_eq!(rd(r), lit("-0.5"));
    let r = ta::helpers::max3(dec("4"), dec("4.0"), dec("4"));
    assert_eq!(rd(r), lit("4"));
}
