use ack_shim::decimal::u128_to_decimal;

#[test]
fn renders_zero() {
    assert_eq!(u128_to_decimal(0), "0");
}

#[test]
fn renders_single_digits() {
    assert_eq!(u128_to_decimal(7), "7");
    assert_eq!(u128_to_decimal(9), "9");
}

#[test]
fn renders_round_numbers() {
    assert_eq!(u128_to_decimal(10), "10");
    assert_eq!(u128_to_decimal(100), "100");
    assert_eq!(u128_to_decimal(1000000), "1000000");
}

#[test]
fn renders_arbitrary_numbers() {
    assert_eq!(u128_to_decimal(12345), "12345");
    assert_eq!(u128_to_decimal(987654321), "987654321");
}

#[test]
fn renders_millisecond_timestamps() {
    assert_eq!(u128_to_decimal(1700000000000), "1700000000000");
}

#[test]
fn renders_largest_value() {
    assert_eq!(
        u128_to_decimal(u128::MAX),
        "340282366920938463463374607431768211455"
    );
}
