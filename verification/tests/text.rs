use todomvc::text::{bool_string, decimal_string, is_blank, parse_decimal, push_decimal};

#[test]
fn blank_texts() {
    assert!(is_blank(""));
    assert!(is_blank(" "));
    assert!(is_blank("  "));
    assert!(is_blank("\t\r\n "));
    assert!(is_blank("\u{3000}\u{a0}"));
    assert!(!is_blank("a"));
    assert!(!is_blank("  a  "));
    assert!(!is_blank("\u{200b}"));
}

#[test]
fn blank_agrees_with_trim() {
    for text in ["", " ", "x", " x", "x ", "\n", "\u{2003}", "\u{feff}", "a b", "\u{85}"] {
        assert_eq!(is_blank(text), text.trim().is_empty());
    }
}

#[test]
fn decimal_numerals() {
    assert_eq!(decimal_string(0), "0");
    assert_eq!(decimal_string(7), "7");
    assert_eq!(decimal_string(10), "10");
    assert_eq!(decimal_string(600), "600");
    assert_eq!(decimal_string(4294967295), "4294967295");
    assert_eq!(decimal_string(u64::MAX), "18446744073709551615");
}

#[test]
fn push_decimal_appends() {
    let mut out = "id=".to_string();
    push_decimal(&mut out, 305);
    assert_eq!(out, "id=305");
}

#[test]
fn truth_values() {
    assert_eq!(bool_string(true), "true");
    assert_eq!(bool_string(false), "false");
}

#[test]
fn parse_decimal_reads_numbers() {
    assert_eq!(parse_decimal("0"), Some(0));
    assert_eq!(parse_decimal("42"), Some(42));
    assert_eq!(parse_decimal("+42"), Some(42));
    assert_eq!(parse_decimal("00012"), Some(12));
    assert_eq!(parse_decimal("4294967295"), Some(u32::MAX));
}

#[test]
fn parse_decimal_rejects_the_rest() {
    assert_eq!(parse_decimal(""), None);
    assert_eq!(parse_decimal("+"), None);
    assert_eq!(parse_decimal("-"), None);
    assert_eq!(parse_decimal("-1"), None);
    assert_eq!(parse_decimal("++1"), None);
    assert_eq!(parse_decimal("1+"), None);
    assert_eq!(parse_decimal(" 12"), None);
    assert_eq!(parse_decimal("12 "), None);
    assert_eq!(parse_decimal("1_000"), None);
    assert_eq!(parse_decimal("0x10"), None);
    assert_eq!(parse_decimal("abc"), None);
    assert_eq!(parse_decimal("\u{ff11}\u{ff12}"), None);
    assert_eq!(parse_decimal("4294967296"), None);
    assert_eq!(parse_decimal("99999999999999999999999999"), None);
}

#[test]
fn parse_decimal_agrees_with_std() {
    for text in [
        "", "+", "-", "0", "+0", "-0", "7", "+7", "007", "4294967295", "4294967296",
        "42949672950", "1e3", "12a", "a12", " 1", "1 ", "+-1", "٣",
    ] {
        assert_eq!(parse_decimal(text), text.parse::<u32>().ok());
    }
}

#[test]
fn parse_decimal_inverts_decimal_string() {
    for n in [0u32, 1, 9, 10, 99, 100, 65535, 65536, u32::MAX - 1, u32::MAX] {
        assert_eq!(parse_decimal(&decimal_string(n as u64)), Some(n));
    }
}

fn has_white_space_property(c: char) -> bool {
    matches!(
        c as u32,
        0x0009..=0x000d
            | 0x0020
            | 0x0085
            | 0x00a0
            | 0x1680
            | 0x2000..=0x200a
            | 0x2028
            | 0x2029
            | 0x202f
            | 0x205f
            | 0x3000
    )
}

#[test]
fn blank_characters_are_the_white_space_code_points() {
    let mut count = 0;
    for code in 0..=0x10ffffu32 {
        if let Some(c) = char::from_u32(code) {
            let text = c.to_string();
            assert_eq!(is_blank(&text), has_white_space_property(c));
            assert_eq!(c.is_whitespace(), has_white_space_property(c));
            if is_blank(&text) {
                count += 1;
            }
        }
    }
    assert_eq!(count, 25);
}

#[test]
fn one_character_that_is_no_white_space_makes_a_text_not_blank() {
    assert!(is_blank(" \t\u{2003}\u{3000}\n"));
    assert!(!is_blank(" \t\u{2003}x\u{3000}\n"));
    assert!(!is_blank("buy milk"));
    assert!(!is_blank("\u{180e}"));
    assert!(!is_blank("\u{200b}\u{2060}\u{feff}"));
}
