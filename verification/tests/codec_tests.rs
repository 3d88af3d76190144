use iup::codec::{decode_bool, encode_bool, format_rgb, format_u32, parse_rgb, parse_u32};
use iup::strutil::{split_str, split_terminator_str, str_eq};

#[test]
fn format_small_numbers() {
    assert_eq!(format_u32(0), "0");
    assert_eq!(format_u32(7), "7");
    assert_eq!(format_u32(10), "10");
    assert_eq!(format_u32(105), "105");
}

#[test]
fn format_largest_number() {
    assert_eq!(format_u32(4294967295), "4294967295");
}

#[test]
fn parse_plain_numbers() {
    assert_eq!(parse_u32("0"), Some(0));
    assert_eq!(parse_u32("42"), Some(42));
    assert_eq!(parse_u32("007"), Some(7));
    assert_eq!(parse_u32("4294967295"), Some(4294967295));
}

#[test]
fn parse_rejects_bad_numbers() {
    assert_eq!(parse_u32(""), None);
    assert_eq!(parse_u32("12a"), None);
    assert_eq!(parse_u32("-3"), None);
    assert_eq!(parse_u32(" 1"), None);
    assert_eq!(parse_u32("4294967296"), None);
    assert_eq!(parse_u32("99999999999999999999"), None);
}

#[test]
fn decimal_round_trip() {
    for n in [0u32, 1, 9, 10, 99, 100, 12345, 4294967295] {
        assert_eq!(parse_u32(format_u32(n).as_str()), Some(n));
    }
}

#[test]
fn bool_codec() {
    assert_eq!(encode_bool(true), "YES");
    assert_eq!(encode_bool(false), "NO");
    assert_eq!(decode_bool("YES"), Some(true));
    assert_eq!(decode_bool("NO"), Some(false));
    assert_eq!(decode_bool("yes"), None);
    assert_eq!(decode_bool(""), None);
    assert_eq!(decode_bool("ON"), None);
}

#[test]
fn rgb_format() {
    assert_eq!(format_rgb((1, 2, 3)), "1 2 3");
    assert_eq!(format_rgb((255, 0, 128)), "255 0 128");
}

#[test]
fn rgb_parse() {
    assert_eq!(parse_rgb("1 2 3"), Some((1, 2, 3)));
    assert_eq!(parse_rgb("255 255 255"), Some((255, 255, 255)));
    assert_eq!(parse_rgb("01 2 3"), Some((1, 2, 3)));
    assert_eq!(parse_rgb("256 0 0"), None);
    assert_eq!(parse_rgb("1 2"), None);
    assert_eq!(parse_rgb("1 2 3 4"), None);
    assert_eq!(parse_rgb("1  2 3"), None);
    assert_eq!(parse_rgb(""), None);
    assert_eq!(parse_rgb("a b c"), None);
}

#[test]
fn rgb_round_trip() {
    for rgb in [(0u8, 0u8, 0u8), (1, 2, 3), (255, 255, 255), (12, 0, 200)] {
        assert_eq!(parse_rgb(format_rgb(rgb).as_str()), Some(rgb));
    }
}

#[test]
fn split_plain() {
    assert_eq!(split_str("a|b|c", '|'), vec!["a", "b", "c"]);
    assert_eq!(split_str("", '|'), vec![""]);
    assert_eq!(split_str("||", '|'), vec!["", "", ""]);
    assert_eq!(split_str("a|", '|'), vec!["a", ""]);
}

#[test]
fn split_terminator_drops_trailing_piece() {
    assert_eq!(split_terminator_str("a|b|", '|'), vec!["a", "b"]);
    assert_eq!(split_terminator_str("a|b", '|'), vec!["a", "b"]);
    let empty: Vec<String> = Vec::new();
    assert_eq!(split_terminator_str("", '|'), empty);
    assert_eq!(split_terminator_str("|", '|'), vec![""]);
    assert_eq!(split_terminator_str("a||", '|'), vec!["a", ""]);
}

#[test]
fn string_equality() {
    assert!(str_eq("TITLE", "TITLE"));
    assert!(!str_eq("TITLE", "TITLe"));
    assert!(!str_eq("TITLE", "TITL"));
    assert!(str_eq("", ""));
}
