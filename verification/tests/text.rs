use super_paste::text::{char_is_whitespace, same_text, trim};

#[test]
fn whitespace_agrees_with_std_on_every_char() {
    for code in 0..=0x10FFFFu32 {
        if let Some(c) = char::from_u32(code) {
            assert_eq!(char_is_whitespace(c), c.is_whitespace(), "U+{:04X}", code);
        }
    }
}

#[test]
fn trim_removes_white_space_at_both_ends() {
    assert_eq!(trim("  abc  "), "abc");
    assert_eq!(trim("83886082\n"), "83886082");
    assert_eq!(trim("\t\r\n a b \n"), "a b");
    assert_eq!(trim("abc"), "abc");
    assert_eq!(trim("a"), "a");
    assert_eq!(trim(" a"), "a");
    assert_eq!(trim("a "), "a");
}

#[test]
fn trim_of_nothing_but_white_space_is_empty() {
    assert_eq!(trim(""), "");
    assert_eq!(trim(" "), "");
    assert_eq!(trim(" \n\t \u{3000}"), "");
}

#[test]
fn trim_counts_characters_not_bytes() {
    assert_eq!(trim("\u{00A0}é ü\u{2003}"), "é ü");
    assert_eq!(trim("\u{3000}日本語\u{3000}"), "日本語");
    assert_eq!(trim(" \u{200B}x "), "\u{200B}x");
}

#[test]
fn trim_agrees_with_std() {
    let samples = [
        "", " ", "x", " x", "x ", " x ", "\n\nx y\n\n", "\u{85}x\u{85}", "  多 字 节  ",
        "\u{1680}a\u{2028}b\u{2029}", "\u{FEFF} a", "tab\there",
    ];
    for sample in samples {
        assert_eq!(trim(sample), sample.trim(), "{:?}", sample);
    }
}

#[test]
fn same_text_compares_characters() {
    assert!(same_text("", ""));
    assert!(same_text("text", "text"));
    assert!(!same_text("text", "Text"));
    assert!(!same_text("text", "text "));
}
