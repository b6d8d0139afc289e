use voidreg_api::text::{contains_text, parse_u16, push_decimal, same_text, starts_with, text_lt, trim};

#[test]
fn trim_removes_surrounding_white_space() {
    assert_eq!(trim("  hello world \t\n"), "hello world");
    assert_eq!(trim("\u{3000}wide\u{2029}"), "wide");
    assert_eq!(trim("   "), "");
    assert_eq!(trim(""), "");
    assert_eq!(trim("a"), "a");
}

#[test]
fn trim_agrees_with_str_trim() {
    for s in ["  x ", "\u{85}a b\u{a0}", "\u{200b}z", " \u{180e} ", "é  "] {
        assert_eq!(trim(s), s.trim());
    }
}

#[test]
fn parse_u16_accepts_what_str_parse_accepts() {
    assert_eq!(parse_u16("8080"), Some(8080));
    assert_eq!(parse_u16("+80"), Some(80));
    assert_eq!(parse_u16("007"), Some(7));
    assert_eq!(parse_u16("65535"), Some(65535));
    assert_eq!(parse_u16("65536"), None);
    assert_eq!(parse_u16("99999999999"), None);
    assert_eq!(parse_u16(""), None);
    assert_eq!(parse_u16("+"), None);
    assert_eq!(parse_u16("-1"), None);
    assert_eq!(parse_u16(" 80"), None);
    assert_eq!(parse_u16("8a"), None);
    for s in ["8080", "+80", "007", "65536", "", "+", "-0", "++1", "٣"] {
        assert_eq!(parse_u16(s), s.parse::<u16>().ok());
    }
}

#[test]
fn push_decimal_writes_digits() {
    let mut s = String::from("port ");
    push_decimal(&mut s, 0);
    assert_eq!(s, "port 0");
    let mut s = String::new();
    push_decimal(&mut s, 65535);
    assert_eq!(s, "65535");
    let mut s = String::new();
    push_decimal(&mut s, 100);
    assert_eq!(s, "100");
}

#[test]
fn text_helpers() {
    assert!(starts_with("libsql://db", "libsql://"));
    assert!(!starts_with("lib", "libsql://"));
    assert!(contains_text("table `x` already exists", "already exists"));
    assert!(!contains_text("already exist", "already exists"));
    assert!(contains_text("abc", ""));
    assert!(same_text("draft", "draft"));
    assert!(!same_text("draft", "Draft"));
    assert!(text_lt("abc", "abd"));
    assert!(text_lt("ab", "abc"));
    assert!(!text_lt("abc", "abc"));
    assert!(!text_lt("b", "abc"));
    assert!(text_lt("z", "é"));
}

#[test]
fn trim_twice_is_trim_once() {
    for s in ["  a b  ", "\u{2003}x\u{2003}", "", "   "] {
        assert_eq!(trim(trim(s)), trim(s));
    }
}
