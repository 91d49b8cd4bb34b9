use froggi::text::{
    contains_char, ends_with, has_second_piece, parse_u32, parse_u8, split_char, split_piece,
    starts_with, str_equal,
};

#[test]
fn parse_u32_accepts_plain_digits() {
    assert_eq!(parse_u32("0"), Some(0));
    assert_eq!(parse_u32("42"), Some(42));
    assert_eq!(parse_u32("007"), Some(7));
    assert_eq!(parse_u32("4294967295"), Some(u32::MAX));
}

#[test]
fn parse_u32_accepts_one_plus_sign() {
    assert_eq!(parse_u32("+15"), Some(15));
    assert_eq!(parse_u32("+"), None);
    assert_eq!(parse_u32("++1"), None);
}

#[test]
fn parse_u32_rejects_other_text() {
    assert_eq!(parse_u32(""), None);
    assert_eq!(parse_u32("-1"), None);
    assert_eq!(parse_u32(" 1"), None);
    assert_eq!(parse_u32("1a"), None);
    assert_eq!(parse_u32("4294967296"), None);
    assert_eq!(parse_u32("99999999999999999999"), None);
}

#[test]
fn parse_u8_bounds() {
    assert_eq!(parse_u8("255"), Some(255));
    assert_eq!(parse_u8("256"), None);
    assert_eq!(parse_u8("3"), Some(3));
}

#[test]
fn parsing_agrees_with_std() {
    for s in ["", "0", "+0", "12", "255", "256", "-3", "x", "+", "1 ", "65536", "4294967295", "4294967296"] {
        assert_eq!(parse_u32(s), s.parse::<u32>().ok(), "{s}");
        assert_eq!(parse_u8(s), s.parse::<u8>().ok(), "{s}");
    }
}

#[test]
fn split_matches_std_split() {
    for s in ["", ":", "12:30", "a::b", "no", "x.y.z", "é:ü"] {
        for sep in [':', '.'] {
            let ours = split_char(s, sep);
            let std: Vec<String> = s.split(sep).map(String::from).collect();
            assert_eq!(ours, std, "{s} {sep}");
        }
    }
}

#[test]
fn split_piece_picks_pieces() {
    assert_eq!(split_piece("home.png", '.', 0), "home");
    assert_eq!(split_piece("home.png", '.', 1), "png");
    assert_eq!(split_piece("a.b.c", '.', 1), "b");
    assert!(has_second_piece("a.b", '.'));
    assert!(!has_second_piece("ab", '.'));
}

#[test]
fn prefix_suffix_and_contains() {
    assert!(starts_with("home.png", "home."));
    assert!(!starts_with("hom", "home."));
    assert!(ends_with("1st", "st"));
    assert!(!ends_with("t", "st"));
    assert!(contains_char("a b", ' '));
    assert!(!contains_char("ab", ' '));
    assert!(str_equal("abc", "abc"));
    assert!(!str_equal("abc", "abd"));
    assert!(!str_equal("abc", "ab"));
}
