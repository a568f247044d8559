use accord::text::{
    chars_of, clone_opt, decimal_text, escape, parse_number, slash_join, trim,
};

#[test]
fn numbers_are_written_in_base_ten() {
    assert_eq!(decimal_text(0), "0");
    assert_eq!(decimal_text(7), "7");
    assert_eq!(decimal_text(10), "10");
    assert_eq!(decimal_text(700_000_000_000_000_000), "700000000000000000");
    assert_eq!(decimal_text(u64::MAX), u64::MAX.to_string());
}

#[test]
fn numbers_read_back_as_themselves() {
    for n in [0u64, 9, 10, 123, 456_789, u64::MAX - 1, u64::MAX] {
        assert_eq!(parse_number(&decimal_text(n), u64::MAX), Some(n));
    }
}

#[test]
fn numbers_are_read_as_the_standard_library_reads_them() {
    let texts = [
        "0", "00", "007", "+1", "+", "", "-1", "++1", " 1", "1 ", "1_000", "0x10", "१", "1.0",
        "18446744073709551615", "18446744073709551616", "99999999999999999999999",
    ];
    for text in texts {
        assert_eq!(parse_number(text, u64::MAX), text.parse::<u64>().ok(), "{}", text);
    }
}

#[test]
fn numbers_above_the_bound_are_not_read() {
    assert_eq!(parse_number("255", 255), Some(255));
    assert_eq!(parse_number("256", 255), None);
    assert_eq!(parse_number("0256", 255), None);
}

#[test]
fn every_character_is_escaped() {
    assert_eq!(escape(""), "");
    assert_eq!(escape("a"), "\\u{61}");
    assert_eq!(escape("é~"), "\\u{e9}\\u{7e}");
    assert_eq!(escape("\u{0}\n"), "\\u{0}\\u{a}");
    let text = "Zoë \u{10ffff}\t🎲";
    assert_eq!(escape(text), text.escape_unicode().to_string());
}

#[test]
fn different_texts_are_escaped_differently() {
    let texts = ["", "a", "b", "aa", "\\u{61}", "61", "{}", "}{"];
    for (i, a) in texts.iter().enumerate() {
        for (j, b) in texts.iter().enumerate() {
            assert_eq!(escape(a) == escape(b), i == j);
        }
    }
}

#[test]
fn words_are_joined_with_slashes() {
    assert_eq!(slash_join(&vec![]), "");
    assert_eq!(slash_join(&vec!["roll".to_string()]), "roll");
    assert_eq!(
        slash_join(&vec!["a".to_string(), "".to_string(), "b/c".to_string()]),
        "a//b/c"
    );
}

#[test]
fn white_space_is_trimmed_at_both_ends() {
    let texts = [
        "", " ", "a", " a", "a ", "\t\r\n a b \u{a0}\u{3000}", "\u{200b}a", "\u{85}x\u{2029}",
        "\u{1680}\u{2000}\u{200a}y\u{202f}\u{205f}", "\u{1c}z",
    ];
    for text in texts {
        assert_eq!(trim(text), text.trim(), "{:?}", text);
    }
}

#[test]
fn characters_and_optional_texts_are_copied() {
    assert_eq!(chars_of("añ🎲"), vec!['a', 'ñ', '🎲']);
    assert_eq!(clone_opt(&Some("x".to_string())), Some("x".to_string()));
    assert_eq!(clone_opt(&None), None);
}
