use peka_vault::text::{is_blank, is_pin, is_white_space, sanitize_file_name, trim};

#[test]
fn sanitize_replaces_collapses_and_strips() {
    assert_eq!(sanitize_file_name("Personal"), "Personal");
    assert_eq!(sanitize_file_name("  My Vault!  "), "My_Vault");
    assert_eq!(sanitize_file_name("a   b"), "a_b");
    assert_eq!(sanitize_file_name("a/b\\c"), "a_b_c");
    assert_eq!(sanitize_file_name("__x__"), "x");
    assert_eq!(sanitize_file_name("work-2024_old"), "work-2024_old");
    assert_eq!(sanitize_file_name("é"), "vault");
    assert_eq!(sanitize_file_name("***"), "vault");
    assert_eq!(sanitize_file_name(""), "vault");
}

#[test]
fn trim_removes_outer_white_space_only() {
    assert_eq!(trim("  a b \t\n"), "a b");
    assert_eq!(trim("\u{a0}x\u{3000}"), "x");
    assert_eq!(trim(""), "");
    assert!(is_blank(" \t "));
    assert!(!is_blank(" . "));
}

#[test]
fn pin_is_four_ascii_digits() {
    assert!(is_pin("1234"));
    assert!(is_pin("0000"));
    assert!(!is_pin("123"));
    assert!(!is_pin("12345"));
    assert!(!is_pin("12a4"));
    assert!(!is_pin("１２３４"));
    assert!(!is_pin(""));
}

#[test]
fn white_space_is_the_unicode_property() {
    let mut count = 0;
    for n in 0..=0x10FFFFu32 {
        if let Some(c) = char::from_u32(n) {
            assert_eq!(is_white_space(c), c.is_whitespace(), "U+{:04X}", n);
            if is_white_space(c) {
                count += 1;
            }
        }
    }
    assert_eq!(count, 25);
    assert!(is_white_space(' '));
    assert!(is_white_space('\u{2028}'));
    assert!(!is_white_space('\u{200B}'));
    assert!(!is_white_space('\u{180E}'));
    assert!(!is_white_space('_'));
}

#[test]
fn blank_is_nothing_but_white_space() {
    assert!(is_blank(""));
    assert!(is_blank("   "));
    assert!(is_blank("\t\r\n\u{85}\u{a0}\u{1680}\u{2003}\u{3000}"));
    assert!(!is_blank(" \u{200b} "));
    assert!(!is_blank("a"));
    assert_eq!(trim(" \u{2009}a\u{205f}b\u{202f} "), "a\u{205f}b");
}
