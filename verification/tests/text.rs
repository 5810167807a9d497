use open_tethyr::text::{
    concat3, ends_with, parse_u64, starts_with, strip_prefix, to_lowercase, trim,
    trim_end_matches_char, trim_matches_char, u64_to_decimal,
};

#[test]
fn decimal_text_parses_back() {
    for n in [0u64, 7, 10, 99, 1234567890, u64::MAX] {
        assert_eq!(u64_to_decimal(n), n.to_string());
        assert_eq!(parse_u64(&u64_to_decimal(n)), Some(n));
    }
}

#[test]
fn parse_u64_follows_std() {
    for s in ["", "+", "-1", "1a", " 1", "18446744073709551616", "+42", "007"] {
        assert_eq!(parse_u64(s), s.parse::<u64>().ok(), "input {:?}", s);
    }
}

#[test]
fn trimming_follows_std() {
    for s in ["", "  a b  ", "\u{3000}x\u{85}", "\"\"quoted\"\"", "///"] {
        assert_eq!(trim(s), s.trim());
        assert_eq!(trim_matches_char(s, '"'), s.trim_matches('"'));
        assert_eq!(trim_end_matches_char(s, '/'), s.trim_end_matches('/'));
    }
}

#[test]
fn prefixes_and_suffixes() {
    assert_eq!(strip_prefix("max-age=5", "max-age="), Some("5".to_string()));
    assert_eq!(strip_prefix("max", "max-age="), None);
    assert!(starts_with("https://x", "https://"));
    assert!(!starts_with("http://x", "https://"));
    assert!(ends_with("a/.well-known/agent-exchange.json", "/.well-known/agent-exchange.json"));
    assert_eq!(concat3("a", "b", "c"), "abc");
    assert_eq!(to_lowercase("ÀB"), "àb");
}
