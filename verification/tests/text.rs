use rust_browser_control::text::{
    borrowed, bool_text, chars_of, decimal_text, has_part, has_suffix, joined, lower_char, lowered,
    parse_unsigned, same_text, slice_of, split_at_mark, string_of, trimmed, white,
    without_leading_dots,
};

fn all_chars() -> Vec<char> {
    (0..=0x10ffff_u32).filter_map(char::from_u32).collect()
}

#[test]
fn white_space_is_what_unicode_says() {
    for c in all_chars() {
        assert_eq!(white(c), c.is_whitespace(), "{:?}", c);
    }
}

#[test]
fn letters_are_lowered_in_ascii_only() {
    for c in all_chars() {
        assert_eq!(lower_char(c), c.to_ascii_lowercase(), "{:?}", c);
    }
    assert_eq!(lowered("Hello WORLD 9\u{c4}"), "hello world 9\u{c4}");
}

#[test]
fn texts_are_taken_apart_and_put_together() {
    let text = "a\u{e9}\u{1f600}b";
    assert_eq!(chars_of(text), text.chars().collect::<Vec<char>>());
    assert_eq!(string_of(&chars_of(text)), text);
    assert_eq!(string_of(&slice_of(&chars_of(text), 1, 3)), "\u{e9}\u{1f600}");
    assert!(same_text("ab", "ab"));
    assert!(!same_text("ab", "aB"));
}

#[test]
fn white_space_and_dots_are_trimmed() {
    assert_eq!(string_of(&trimmed(&chars_of(" \t a b \u{3000}\n"))), "a b");
    assert_eq!(string_of(&trimmed(&chars_of("   "))), "");
    assert_eq!(string_of(&without_leading_dots(&chars_of("..a.b."))), "a.b.");
    assert_eq!(string_of(&without_leading_dots(&chars_of("..."))), "");
}

#[test]
fn numbers_are_written_in_decimal() {
    assert_eq!(decimal_text(0), "0");
    assert_eq!(decimal_text(10), "10");
    assert_eq!(decimal_text(u64::MAX as u128), "18446744073709551615");
    assert_eq!(decimal_text(u128::MAX), u128::MAX.to_string());
}

#[test]
fn numbers_are_read_as_std_reads_them() {
    for raw in [
        "", "0", "7", "+7", "++7", "+", "-1", "007", " 7", "7 ", "1_000", "18446744073709551615",
        "18446744073709551616", "99999999999999999999999", "000000000000000000000000000001", "x",
        "\u{662}",
    ] {
        assert_eq!(parse_unsigned(raw), raw.parse::<u64>().ok(), "{:?}", raw);
    }
}

#[test]
fn parts_are_found() {
    assert!(has_suffix(&chars_of("a.png"), &chars_of(".png")));
    assert!(!has_suffix(&chars_of("png"), &chars_of(".png")));
    assert!(has_suffix(&chars_of("x"), &chars_of("")));
    assert!(has_part(&chars_of("abcabd"), &chars_of("abd")));
    assert!(!has_part(&chars_of("abcab"), &chars_of("abd")));
    assert!(has_part(&chars_of("abc"), &chars_of("")));
    assert!(!has_part(&chars_of(""), &chars_of("a")));
}

#[test]
fn texts_are_split_at_a_mark() {
    let split = |s: &str| {
        split_at_mark(&chars_of(s), ',').iter().map(string_of).collect::<Vec<String>>()
    };
    assert_eq!(split("a,b"), vec!["a", "b"]);
    assert_eq!(split(",a,,"), vec!["", "a", "", ""]);
    assert_eq!(split(""), vec![""]);
}

#[test]
fn texts_are_joined() {
    let list = vec!["a".to_owned(), "b".to_owned(), "c".to_owned()];
    assert_eq!(joined(&list, 3, ", "), "a, b, c");
    assert_eq!(joined(&list, 1, ", "), "a");
    assert_eq!(joined(&list, 0, ", "), "");
    assert_eq!(bool_text(true), "true");
    assert_eq!(bool_text(false), "false");
    assert_eq!(borrowed(&Some("x".to_owned())), Some("x"));
    assert_eq!(borrowed(&None), None);
}
