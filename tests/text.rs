use larrust::text::{decimal, parse_unsigned, same_text, trim};

#[test]
fn decimal_renders_digits() {
    assert_eq!(decimal(0), "0");
    assert_eq!(decimal(9), "9");
    assert_eq!(decimal(10), "10");
    assert_eq!(decimal(1002003), "1002003");
}

#[test]
fn parse_unsigned_accepts_what_std_accepts() {
    assert_eq!(parse_unsigned("42"), Some(42));
    assert_eq!(parse_unsigned("  42\n"), Some(42));
    assert_eq!(parse_unsigned("+7"), Some(7));
    assert_eq!(parse_unsigned("007"), Some(7));
    assert_eq!(parse_unsigned("4294967295"), Some(u32::MAX));
    assert_eq!(parse_unsigned("\u{3000}5\u{a0}"), Some(5));
}

#[test]
fn parse_unsigned_rejects_other_text() {
    assert_eq!(parse_unsigned(""), None);
    assert_eq!(parse_unsigned("   "), None);
    assert_eq!(parse_unsigned("+"), None);
    assert_eq!(parse_unsigned("-1"), None);
    assert_eq!(parse_unsigned("12a"), None);
    assert_eq!(parse_unsigned("1 2"), None);
    assert_eq!(parse_unsigned("4294967296"), None);
    assert_eq!(parse_unsigned("99999999999"), None);
}

#[test]
fn parse_unsigned_matches_std_on_samples() {
    for s in ["0", " 1", "+0", "65536\t", "x", "", "4294967295", "4294967296", "\n\n3\r\n"] {
        assert_eq!(parse_unsigned(s), s.trim().parse::<u32>().ok());
    }
}

#[test]
fn trim_removes_surrounding_white_space() {
    assert_eq!(trim("  a b \n"), "a b");
    assert_eq!(trim(""), "");
    assert_eq!(trim(" \t "), "");
    assert_eq!(trim("x"), "x");
}

#[test]
fn same_text_compares_characters() {
    assert!(same_text("mysql", "mysql"));
    assert!(!same_text("mysql", "mysqld"));
}
