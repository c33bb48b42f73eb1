//! Exact decimal rendering of numeric attribute values.

use yew_material::decimal::{i32_to_dec_string, i64_to_dec_string, u32_to_dec_string, u64_to_dec_string};

#[test]
fn unsigned_decimal_strings_are_exact() {
    assert_eq!(u64_to_dec_string(0), "0");
    assert_eq!(u64_to_dec_string(7), "7");
    assert_eq!(u64_to_dec_string(10), "10");
    assert_eq!(u64_to_dec_string(90210), "90210");
    assert_eq!(u64_to_dec_string(u64::MAX), "18446744073709551615");
    assert_eq!(u32_to_dec_string(u32::MAX), "4294967295");
}

#[test]
fn signed_decimal_strings_are_exact() {
    assert_eq!(i64_to_dec_string(0), "0");
    assert_eq!(i64_to_dec_string(42), "42");
    assert_eq!(i64_to_dec_string(-1), "-1");
    assert_eq!(i64_to_dec_string(-100), "-100");
    assert_eq!(i64_to_dec_string(i64::MAX), "9223372036854775807");
    assert_eq!(i64_to_dec_string(i64::MIN), "-9223372036854775808");
    assert_eq!(i32_to_dec_string(-1), "-1");
    assert_eq!(i32_to_dec_string(i32::MIN), "-2147483648");
}
