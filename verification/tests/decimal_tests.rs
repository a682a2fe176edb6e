use wsl_plugin_sample::decimal::{
    append_decimal, append_signed_decimal, decimal_string, signed_decimal_string,
};

#[test]
fn zero_is_one_digit() {
    assert_eq!(decimal_string(0), "0");
    assert_eq!(signed_decimal_string(0), "0");
}

#[test]
fn single_digits() {
    let digits = ["0", "1", "2", "3", "4", "5", "6", "7", "8", "9"];
    let mut n: u64 = 0;
    while n < 10 {
        assert_eq!(decimal_string(n), digits[n as usize]);
        n += 1;
    }
}

#[test]
fn several_digits_most_significant_first() {
    assert_eq!(decimal_string(10), "10");
    assert_eq!(decimal_string(120), "120");
    assert_eq!(decimal_string(4_294_967_295), "4294967295");
    assert_eq!(decimal_string(1_000_000_007), "1000000007");
}

#[test]
fn largest_unsigned_number() {
    assert_eq!(decimal_string(u64::MAX), "18446744073709551615");
}

#[test]
fn negative_numbers_carry_a_minus_sign() {
    assert_eq!(signed_decimal_string(-1), "-1");
    assert_eq!(signed_decimal_string(-2147483648), "-2147483648");
    assert_eq!(signed_decimal_string(42), "42");
}

#[test]
fn smallest_and_largest_signed_number() {
    assert_eq!(signed_decimal_string(i64::MIN), "-9223372036854775808");
    assert_eq!(signed_decimal_string(i64::MAX), "9223372036854775807");
}

#[test]
fn appending_keeps_what_was_there() {
    let mut text = String::from("n=");
    append_decimal(&mut text, 305);
    assert_eq!(text, "n=305");
    append_signed_decimal(&mut text, -17);
    assert_eq!(text, "n=305-17");
}

#[test]
fn agrees_with_the_standard_rendering() {
    let samples: [u64; 8] = [0, 9, 10, 99, 100, 65_535, 123_456_789, u64::MAX - 1];
    for n in samples {
        assert_eq!(decimal_string(n), format!("{}", n));
    }
    let signed: [i64; 6] = [0, -9, -10, 2_147_483_647, -2_147_483_648, i64::MIN + 1];
    for n in signed {
        assert_eq!(signed_decimal_string(n), format!("{}", n));
    }
}
