use chat_session::text::{first_space, is_whitespace_char, parse_usize, str_eq, trim, usize_to_string};

#[test]
fn whitespace_set_matches_std() {
    for u in 0u32..0x3100 {
        if let Some(c) = char::from_u32(u) {
            assert_eq!(is_whitespace_char(c), c.is_whitespace(), "on U+{:04X}", u);
        }
    }
}

#[test]
fn trim_matches_std() {
    for s in [
        "  hello  ",
        "\t\nhi\r\n",
        "",
        "   ",
        "\u{00A0}x\u{3000}",
        "a\u{2009}b",
        "\u{1680}\u{2028}mixed \u{202F}\u{205F}",
        "/join 7 ",
    ] {
        assert_eq!(trim(s), s.trim(), "on {:?}", s);
    }
}

#[test]
fn trim_removes_ascii_whitespace() {
    assert_eq!(trim("  hello  "), "hello");
    assert_eq!(trim("\t\nhi\r\n"), "hi");
    assert_eq!(trim("no-edges"), "no-edges");
    assert_eq!(trim(""), "");
    assert_eq!(trim("   "), "");
}

#[test]
fn trim_removes_unicode_whitespace() {
    assert_eq!(trim("\u{00A0}x\u{3000}"), "x");
    assert_eq!(trim("\u{2028}a b\u{205F}"), "a b");
}

#[test]
fn trim_keeps_inner_whitespace() {
    assert_eq!(trim(" a  b "), "a  b");
}

#[test]
fn first_space_finds_first() {
    assert_eq!(first_space("ab cd ef"), 2);
    assert_eq!(first_space(" x"), 0);
    assert_eq!(first_space("abc"), 3);
    assert_eq!(first_space(""), 0);
}

#[test]
fn str_eq_compares_contents() {
    assert!(str_eq("abc", "abc"));
    assert!(!str_eq("abc", "abd"));
    assert!(!str_eq("abc", "ab"));
    assert!(str_eq("", ""));
}

#[test]
fn parse_usize_accepts_what_std_accepts() {
    assert_eq!(parse_usize("0"), Some(0));
    assert_eq!(parse_usize("7"), Some(7));
    assert_eq!(parse_usize("007"), Some(7));
    assert_eq!(parse_usize("+42"), Some(42));
    assert_eq!(parse_usize("18446744073709551615"), Some(usize::MAX));
}

#[test]
fn parse_usize_rejects_what_std_rejects() {
    assert_eq!(parse_usize(""), None);
    assert_eq!(parse_usize("+"), None);
    assert_eq!(parse_usize("-1"), None);
    assert_eq!(parse_usize("-0"), None);
    assert_eq!(parse_usize(" 7"), None);
    assert_eq!(parse_usize("7 "), None);
    assert_eq!(parse_usize("4a"), None);
    assert_eq!(parse_usize("a4"), None);
    assert_eq!(parse_usize("++3"), None);
    assert_eq!(parse_usize("18446744073709551616"), None);
    assert_eq!(parse_usize("99999999999999999999999"), None);
}

#[test]
fn parse_usize_matches_std() {
    for s in ["0", "7", "007", "+42", "", "+", "-1", " 7", "4a", "１２"] {
        assert_eq!(parse_usize(s), s.parse::<usize>().ok(), "on {:?}", s);
    }
}

#[test]
fn usize_to_string_renders_decimal() {
    assert_eq!(usize_to_string(0), "0");
    assert_eq!(usize_to_string(7), "7");
    assert_eq!(usize_to_string(10), "10");
    assert_eq!(usize_to_string(12345), "12345");
    assert_eq!(usize_to_string(usize::MAX), usize::MAX.to_string());
}
