use viz::text::decimal_string;
use viz::text::push_decimal;

#[test]
fn decimal_string_of_zero() {
    assert_eq!(decimal_string(0), "0");
}

#[test]
fn decimal_string_has_no_leading_zeros() {
    assert_eq!(decimal_string(7), "7");
    assert_eq!(decimal_string(10), "10");
    assert_eq!(decimal_string(12345), "12345");
    assert_eq!(decimal_string(1000000), "1000000");
}

#[test]
fn decimal_string_of_the_largest_number() {
    assert_eq!(decimal_string(u128::MAX), "340282366920938463463374607431768211455");
    assert_eq!(decimal_string(u64::MAX as u128), "18446744073709551615");
}

#[test]
fn push_decimal_appends() {
    let mut text = "size: ".to_string();
    push_decimal(&mut text, 4096);
    assert_eq!(text, "size: 4096");
    push_decimal(&mut text, 0);
    assert_eq!(text, "size: 40960");
}
