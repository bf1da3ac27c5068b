use genesis_setup::text::{parse_decimal_u16, str_eq, trim_str, u64_to_string};

#[test]
fn decimal_rendering_matches_std() {
    assert_eq!(u64_to_string(0), "0");
    assert_eq!(u64_to_string(7), "7");
    assert_eq!(u64_to_string(10), "10");
    assert_eq!(u64_to_string(65535), "65535");
    assert_eq!(u64_to_string(1073741824), "1073741824");
    assert_eq!(u64_to_string(500000000000000000), "500000000000000000");
    assert_eq!(u64_to_string(u64::MAX), "18446744073709551615");
}

#[test]
fn trimming_removes_surrounding_whitespace_only() {
    assert_eq!(trim_str("  a b \n"), "a b");
    assert_eq!(trim_str("\t\r\nx\t\r\n"), "x");
    assert_eq!(trim_str("plain"), "plain");
    assert_eq!(trim_str("   "), "");
    assert_eq!(trim_str(""), "");
}

#[test]
fn trimming_matches_std_on_unicode_whitespace() {
    for s in [
        "\u{a0}42\u{a0}",
        "\u{3000}x\u{2028}",
        "\u{85}\u{1680}y\u{2000}\u{200a}\u{205f}",
        "\u{2029}\u{202f}z",
        "inner\u{a0}kept",
    ] {
        assert_eq!(trim_str(s), s.trim());
    }
}

#[test]
fn string_equality_compares_contents() {
    assert!(str_eq("bootstrap", "bootstrap"));
    assert!(!str_eq("bootstrap", "validator"));
    assert!(!str_eq("boot", "bootstrap"));
    assert!(str_eq("", ""));
}

#[test]
fn u16_parsing_trims_and_bounds() {
    assert_eq!(parse_decimal_u16("512"), Some(512));
    assert_eq!(parse_decimal_u16("\n512\n"), Some(512));
    assert_eq!(parse_decimal_u16("+000512"), Some(512));
    assert_eq!(parse_decimal_u16("65536"), None);
    assert_eq!(parse_decimal_u16("five"), None);
}

#[test]
fn u16_parsing_trims_unicode_whitespace_as_std_does() {
    assert_eq!(parse_decimal_u16("\u{a0}42"), Some(42));
    assert_eq!(parse_decimal_u16("\u{3000}512\u{2028}"), Some(512));
    assert_eq!(parse_decimal_u16("4\u{a0}2"), None);
}
