use copilot_sdk::text::{
    joined, decimal_string, ends_with, find_char, format_decimal, owned, parse_decimal, parse_u16,
    str_eq, Decimal,
};

#[test]
fn strings_compare_by_their_characters() {
    assert!(str_eq("", ""));
    assert!(str_eq("session.event", "session.event"));
    assert!(!str_eq("session.event", "session.events"));
    assert!(!str_eq("abc", "abd"));
    assert!(str_eq("h\u{e9}llo", "h\u{e9}llo"));
    assert!(!str_eq("h\u{e9}llo", "hello"));
}

#[test]
fn owned_and_concat_keep_the_text() {
    assert_eq!(owned("abc"), "abc");
    assert_eq!(joined("ab", "cd"), "abcd");
    assert_eq!(joined("", ""), "");
}

#[test]
fn numbers_are_written_in_decimal() {
    assert_eq!(format_decimal(0), b"0".to_vec());
    assert_eq!(format_decimal(7), b"7".to_vec());
    assert_eq!(format_decimal(10), b"10".to_vec());
    assert_eq!(format_decimal(104857600), b"104857600".to_vec());
    assert_eq!(format_decimal(u64::MAX), b"18446744073709551615".to_vec());
    assert_eq!(decimal_string(0), "0");
    assert_eq!(decimal_string(65535), "65535");
    assert_eq!(decimal_string(u64::MAX), "18446744073709551615");
}

#[test]
fn numerals_are_read_under_a_ceiling() {
    assert_eq!(parse_decimal(b"0", 0, 1, 10), Decimal::Value(0));
    assert_eq!(parse_decimal(b"0010", 0, 4, 10), Decimal::Value(10));
    assert_eq!(parse_decimal(b"11", 0, 2, 10), Decimal::TooLarge);
    assert_eq!(parse_decimal(b"18446744073709551615", 0, 20, u64::MAX), Decimal::Value(u64::MAX));
    assert_eq!(parse_decimal(b"18446744073709551616", 0, 20, u64::MAX), Decimal::TooLarge);
    assert_eq!(parse_decimal(b"", 0, 0, 10), Decimal::Invalid);
    assert_eq!(parse_decimal(b"1a", 0, 2, 10), Decimal::Invalid);
    assert_eq!(parse_decimal(b"999999a", 0, 7, 10), Decimal::Invalid);
    assert_eq!(parse_decimal(b"x42y", 1, 3, 100), Decimal::Value(42));
    assert_eq!(parse_decimal(b"0", 0, 1, 0), Decimal::Value(0));
    assert_eq!(parse_decimal(b"1", 0, 1, 0), Decimal::TooLarge);
}

#[test]
fn ports_are_read_as_the_standard_library_reads_them() {
    for text in ["0", "80", "+80", "65535", "0065535", "65536", "", "+", "-1", "8 0", "80 ", "\u{663}\u{664}"] {
        assert_eq!(parse_u16(text), text.parse::<u16>().ok(), "{:?}", text);
    }
    assert_eq!(parse_u16("8080"), Some(8080));
    assert_eq!(parse_u16("65536"), None);
}

#[test]
fn suffixes_and_characters_are_found() {
    assert!(ends_with("index.js", ".js"));
    assert!(ends_with(".js", ".js"));
    assert!(!ends_with("js", ".js"));
    assert!(!ends_with("index.jsx", ".js"));
    assert!(ends_with("anything", ""));
    assert!(ends_with("caf\u{e9}.js", ".js"));
    assert_eq!(find_char("host:80", ':'), Some(4));
    assert_eq!(find_char(":80", ':'), Some(0));
    assert_eq!(find_char("a:b:c", ':'), Some(1));
    assert_eq!(find_char("host", ':'), None);
    assert_eq!(find_char("h\u{f6}st:80", ':'), Some(4));
}
