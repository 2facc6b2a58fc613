use transaction_pool_error::decimal::decimal_string;

#[test]
fn zero_is_one_digit() {
    assert_eq!(decimal_string(0), "0");
}

#[test]
fn single_digits() {
    let expected = ["0", "1", "2", "3", "4", "5", "6", "7", "8", "9"];
    for (value, text) in expected.iter().enumerate() {
        assert_eq!(decimal_string(value as u64), *text);
    }
}

#[test]
fn digits_come_most_significant_first() {
    assert_eq!(decimal_string(10), "10");
    assert_eq!(decimal_string(12345), "12345");
    assert_eq!(decimal_string(9007199254740993), "9007199254740993");
}

#[test]
fn zeros_inside_and_at_the_end_are_kept() {
    assert_eq!(decimal_string(100), "100");
    assert_eq!(decimal_string(1002003000), "1002003000");
}

#[test]
fn largest_value() {
    assert_eq!(decimal_string(u64::MAX), "18446744073709551615");
}

#[test]
fn agrees_with_the_standard_formatting() {
    let mut value: u64 = 1;
    for _ in 0..64 {
        assert_eq!(decimal_string(value), value.to_string());
        assert_eq!(decimal_string(value - 1), (value - 1).to_string());
        value = value.wrapping_mul(2);
    }
}

#[test]
fn reads_back_as_the_same_number() {
    for value in [0u64, 9, 10, 99, 100, 65535, 4294967296, u64::MAX] {
        assert_eq!(decimal_string(value).parse::<u64>(), Ok(value));
    }
}
