use xprocess::decimal::u32_to_decimal;

#[test]
fn renders_zero() {
    assert_eq!(u32_to_decimal(0), "0");
}

#[test]
fn renders_single_digits() {
    assert_eq!(u32_to_decimal(1), "1");
    assert_eq!(u32_to_decimal(5), "5");
    assert_eq!(u32_to_decimal(9), "9");
}

#[test]
fn renders_multi_digit_numbers() {
    assert_eq!(u32_to_decimal(10), "10");
    assert_eq!(u32_to_decimal(42), "42");
    assert_eq!(u32_to_decimal(100), "100");
    assert_eq!(u32_to_decimal(65535), "65535");
}

#[test]
fn renders_the_largest_pid_value() {
    assert_eq!(u32_to_decimal(u32::MAX), "4294967295");
}
