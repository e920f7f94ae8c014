use rusddit::text::{dec, udec};

#[test]
fn unsigned_decimal_digits() {
    assert_eq!(udec(0), "0");
    assert_eq!(udec(7), "7");
    assert_eq!(udec(10), "10");
    assert_eq!(udec(12345), "12345");
    assert_eq!(udec(u64::MAX), "18446744073709551615");
}

#[test]
fn signed_decimal_digits() {
    assert_eq!(dec(0), "0");
    assert_eq!(dec(42), "42");
    assert_eq!(dec(-1), "-1");
    assert_eq!(dec(-12005), "-12005");
    assert_eq!(dec(i64::MAX), "9223372036854775807");
    assert_eq!(dec(i64::MIN), "-9223372036854775808");
}
