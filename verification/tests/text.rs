use file_organizer::text::{decimal, natural_decimal, str_eq};

#[test]
fn str_eq_equal_texts() {
    assert!(str_eq("", ""));
    assert!(str_eq("jpg", "jpg"));
    assert!(str_eq("héllo wörld", "héllo wörld"));
}

#[test]
fn str_eq_different_texts() {
    assert!(!str_eq("jpg", "jpeg"));
    assert!(!str_eq("jpg", "jpG"));
    assert!(!str_eq("", "a"));
    assert!(!str_eq("a", ""));
    assert!(!str_eq("é", "e"));
    assert!(!str_eq("ab", "ba"));
}

#[test]
fn natural_decimal_values() {
    assert_eq!(natural_decimal(0), "0");
    assert_eq!(natural_decimal(7), "7");
    assert_eq!(natural_decimal(10), "10");
    assert_eq!(natural_decimal(1234567890), "1234567890");
    assert_eq!(natural_decimal(u32::MAX), "4294967295");
}

#[test]
fn decimal_values() {
    assert_eq!(decimal(0), "0");
    assert_eq!(decimal(9), "9");
    assert_eq!(decimal(2023), "2023");
    assert_eq!(decimal(-5), "-5");
    assert_eq!(decimal(-100), "-100");
    assert_eq!(decimal(i32::MAX), "2147483647");
    assert_eq!(decimal(i32::MIN), "-2147483648");
}

#[test]
fn decimal_agrees_with_the_standard_library() {
    for n in [-262143, -1000, -1, 0, 1, 99, 100, 101, 1969, 1970, 2038, 9999, 10000, 262142] {
        assert_eq!(decimal(n), n.to_string());
    }
}
