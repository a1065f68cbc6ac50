use pdf_studio_ops::text::{str_ends_with, str_equal, trim_str, u64_to_decimal};

#[test]
fn trim_removes_surrounding_whitespace() {
    assert_eq!(trim_str("  OK\r\n"), "OK");
    assert_eq!(trim_str("OK"), "OK");
    assert_eq!(trim_str("\t \r\n"), "");
    assert_eq!(trim_str(""), "");
    assert_eq!(trim_str(" a b "), "a b");
}

#[test]
fn trim_keeps_inner_marks() {
    // An encoding mark is not whitespace: the sentinel check tolerates it by
    // matching the suffix instead.
    assert_eq!(trim_str("\u{feff}OK\r\n"), "\u{feff}OK");
}

#[test]
fn ends_with_checks_the_suffix() {
    assert!(str_ends_with("\u{feff}OK", "OK"));
    assert!(str_ends_with("OK", "OK"));
    assert!(str_ends_with("anything OK", "OK"));
    assert!(!str_ends_with("OKx", "OK"));
    assert!(!str_ends_with("O", "OK"));
    assert!(str_ends_with("abc", ""));
}

#[test]
fn str_equal_is_exact() {
    assert!(str_equal("Open PDF Studio", "Open PDF Studio"));
    assert!(!str_equal("Open PDF Studio", "Open PDF Studio "));
    assert!(!str_equal("a", "A"));
    assert!(str_equal("", ""));
}

#[test]
fn decimal_rendering_is_exact() {
    assert_eq!(u64_to_decimal(0), "0");
    assert_eq!(u64_to_decimal(9), "9");
    assert_eq!(u64_to_decimal(10), "10");
    assert_eq!(u64_to_decimal(1712345678901), "1712345678901");
    assert_eq!(u64_to_decimal(u64::MAX), "18446744073709551615");
}
