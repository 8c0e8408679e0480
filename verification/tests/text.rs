use light_example::logging::{ansi_choice, is_affirmative};
use light_example::text::{
    chars_of, clone_texts, concat2, concat3, contains, decimal_text, eq_ignore_ascii_case,
    is_ascii_alphanumeric, is_white_space, join, nonempty, same_text, text_of, to_ascii_lower,
    to_ascii_upper, trim,
};

#[test]
fn characters_are_sorted_as_the_standard_library_sorts_them() {
    for code in 0..=0x10ffffu32 {
        if let Some(c) = char::from_u32(code) {
            assert_eq!(is_white_space(c), c.is_whitespace());
            assert_eq!(is_ascii_alphanumeric(c), c.is_ascii_alphanumeric());
            assert_eq!(to_ascii_lower(c), c.to_ascii_lowercase());
            assert_eq!(to_ascii_upper(c), c.to_ascii_uppercase());
        }
    }
}

#[test]
fn texts_are_trimmed_as_the_standard_library_trims_them() {
    for text in [
        "",
        " ",
        "a",
        " a b ",
        "\t\na\u{a0}",
        "\u{2003}x\u{3000}\u{85}",
        "\u{200b}x",
        "  \u{1680} ",
    ] {
        assert_eq!(trim(text), text.trim());
        assert_eq!(trim(&trim(text)), trim(text));
        let inner = nonempty(text);
        if text.trim().is_empty() {
            assert_eq!(inner, None);
        } else {
            assert_eq!(inner, Some(text.trim().to_string()));
        }
    }
}

#[test]
fn texts_are_compared_up_to_ascii_case() {
    assert!(eq_ignore_ascii_case("ReJected", "REJECTED"));
    assert!(eq_ignore_ascii_case("", ""));
    assert!(!eq_ignore_ascii_case("a", "ab"));
    assert!(!eq_ignore_ascii_case("\u{e4}", "\u{c4}"));
    assert!(!eq_ignore_ascii_case("@", "`"));
    assert!(same_text("a", "a"));
    assert!(!same_text("a", "A"));
}

#[test]
fn parts_are_found_where_the_standard_library_finds_them() {
    for text in ["", "a", "aab", "rear ended", "x rear-ended", "\u{e4}rear"] {
        for part in ["", "a", "ab", "rear", "rear ended", "rear-ended", "\u{e4}"] {
            assert_eq!(contains(text, part), text.contains(part));
        }
    }
}

#[test]
fn numbers_are_written_in_decimal() {
    for n in [0, 7, 9, 10, 42, 99, 100, 1001, 65536, u64::MAX] {
        assert_eq!(decimal_text(n), n.to_string());
    }
}

#[test]
fn texts_are_put_together() {
    assert_eq!(concat2("a", "b"), "ab");
    assert_eq!(concat3("a", "", "c"), "ac");
    let parts = vec!["x".to_string(), "".to_string(), "z".to_string()];
    assert_eq!(join(&parts, ", "), "x, , z");
    assert_eq!(join(&vec![], ", "), "");
    assert_eq!(join(&vec!["x".to_string()], ", "), "x");
    assert_eq!(clone_texts(&parts), parts);
    let chars = chars_of("a\u{e4}b");
    assert_eq!(chars, vec!['a', '\u{e4}', 'b']);
    assert_eq!(text_of(&chars, 1, 3), "\u{e4}b");
    assert_eq!(text_of(&chars, 2, 2), "");
}

#[test]
fn settings_switch_colours_on() {
    assert_eq!(ansi_choice(None), None);
    for on in ["true", "1", "yes", "on", " TRUE ", "Yes\n", "oN"] {
        assert_eq!(ansi_choice(Some(on)), Some(true));
    }
    for off in ["", "false", "0", "no", "off", "y", "true!", "o n"] {
        assert_eq!(ansi_choice(Some(off)), Some(false));
    }
    assert!(is_affirmative("on"));
    assert!(!is_affirmative("ON"));
}
