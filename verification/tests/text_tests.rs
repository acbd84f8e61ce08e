use c67_mcp::text::{i32_to_decimal, join_strings, str_eq, u64_to_decimal};

#[test]
fn decimal_rendering_of_unsigned_values() {
    assert_eq!(u64_to_decimal(0), "0");
    assert_eq!(u64_to_decimal(7), "7");
    assert_eq!(u64_to_decimal(10), "10");
    assert_eq!(u64_to_decimal(5000), "5000");
    assert_eq!(u64_to_decimal(1241), "1241");
    assert_eq!(u64_to_decimal(u64::MAX), "18446744073709551615");
}

#[test]
fn decimal_rendering_of_signed_values() {
    assert_eq!(i32_to_decimal(0), "0");
    assert_eq!(i32_to_decimal(100), "100");
    assert_eq!(i32_to_decimal(-1), "-1");
    assert_eq!(i32_to_decimal(-5), "-5");
    assert_eq!(i32_to_decimal(i32::MIN), "-2147483648");
    assert_eq!(i32_to_decimal(i32::MAX), "2147483647");
}

#[test]
fn joining_strings_with_separator() {
    let none: Vec<String> = vec![];
    assert_eq!(join_strings(&none, ", "), "");
    let one = vec!["1.0.0".to_string()];
    assert_eq!(join_strings(&one, ", "), "1.0.0");
    let three = vec!["a".to_string(), "b".to_string(), "c".to_string()];
    assert_eq!(join_strings(&three, ", "), "a, b, c");
}

#[test]
fn string_equality_over_characters() {
    assert!(str_eq("", ""));
    assert!(str_eq("abc", "abc"));
    assert!(!str_eq("abc", "abd"));
    assert!(!str_eq("abc", "ab"));
    assert!(str_eq("naïve", "naïve"));
    assert!(!str_eq("naïve", "naive"));
}
