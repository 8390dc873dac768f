use custom_token::decimal::Decimal;

#[test]
fn fee_one_percent_of_hundred() {
    let p = Decimal::percent(1);
    assert_eq!(p.mul_floor(100), 1);
}

#[test]
fn fee_rounds_toward_zero() {
    let p = Decimal::percent(1);
    assert_eq!(p.mul_floor(99), 0);
    assert_eq!(p.mul_floor(199), 1);
    assert_eq!(p.mul_floor(0), 0);
}

#[test]
fn fee_plus_net_equals_amount() {
    let p = Decimal::percent(3);
    for a in [0u128, 1, 7, 99, 100, 12_345, 1_000_000_000_000_000_000_000] {
        let fee = p.mul_floor(a);
        let net = a - fee;
        assert!(fee <= a);
        assert_eq!(fee + net, a);
    }
}

#[test]
fn fee_zero_percent_is_zero() {
    let p = Decimal::percent(0);
    assert_eq!(p.mul_floor(u128::MAX), 0);
}

#[test]
fn fee_full_percent_is_identity() {
    let p = Decimal::percent(100);
    assert_eq!(p.mul_floor(12_345), 12_345);
}

#[test]
fn fee_of_largest_amount_stays_exact() {
    let p = Decimal::percent(1);
    assert_eq!(p.mul_floor(u128::MAX), u128::MAX / 100);
}
