use ppst_academy::text::{
    char_is_whitespace, chars_le, ends_with, from_chars, join_lines, keep_ascii_digits, text_eq,
    to_ascii_lowercase, to_chars, trim,
};

fn chars(s: &str) -> Vec<char> {
    s.chars().collect()
}

#[test]
fn trim_removes_white_space_at_both_ends() {
    assert_eq!(trim("  hello \n"), "hello");
    assert_eq!(trim("hello"), "hello");
    assert_eq!(trim("\t a b \r\n"), "a b");
}

#[test]
fn trim_of_white_space_only_is_empty() {
    assert_eq!(trim("   "), "");
    assert_eq!(trim(""), "");
    assert_eq!(trim("\u{3000}\u{a0}"), "");
}

#[test]
fn trim_knows_the_wide_spaces() {
    assert_eq!(trim("\u{3000}가\u{a0}"), "가");
    assert_eq!(trim("\u{2003}x\u{2028}"), "x");
}

#[test]
fn trim_agrees_with_the_standard_library() {
    let samples = [
        "",
        " ",
        "a",
        " a",
        "a ",
        " a b ",
        "\u{85}a\u{85}",
        "\u{1680}a\u{205f}",
        "\u{200b}a\u{200b}",
        "\u{180e}a\u{180e}",
        "\u{feff}a",
        "\u{2000}\u{200a}a\u{202f}",
        "\u{b}\u{c}a\u{1c}",
        "홍길동 ",
    ];
    for sample in samples {
        assert_eq!(trim(sample), sample.trim(), "for {:?}", sample);
    }
}

#[test]
fn trim_twice_is_trim_once() {
    let once = trim("  가 나  ");
    assert_eq!(trim(&once), once);
}

#[test]
fn white_space_agrees_with_the_standard_library() {
    for code in 0u32..0x3100 {
        if let Some(c) = char::from_u32(code) {
            assert_eq!(char_is_whitespace(c), c.is_whitespace(), "for U+{:04X}", code);
        }
    }
    assert!(!char_is_whitespace('\u{feff}'));
    assert!(!char_is_whitespace('\u{1f600}'));
}

#[test]
fn digits_are_kept_and_the_rest_dropped() {
    assert_eq!(keep_ascii_digits("010-1234-5678"), "01012345678");
    assert_eq!(keep_ascii_digits("abc"), "");
    assert_eq!(keep_ascii_digits("١٢٣4"), "4");
    assert_eq!(keep_ascii_digits(""), "");
}

#[test]
fn lower_case_touches_ascii_capitals_only() {
    assert_eq!(to_ascii_lowercase("Test@Example.COM"), "test@example.com");
    assert_eq!(to_ascii_lowercase("ÉCOLE@x.fr"), "École@x.fr");
    assert_eq!(to_ascii_lowercase("AZaz09@[`{"), "azaz09@[`{");
}

#[test]
fn lower_case_agrees_with_the_standard_library() {
    for sample in ["", "ABC", "MiXeD 123", "한글 ABC", "ÀB"] {
        assert_eq!(to_ascii_lowercase(sample), sample.to_ascii_lowercase());
    }
}

#[test]
fn characters_go_there_and_back() {
    let v = to_chars("가a☆");
    assert_eq!(v, vec!['가', 'a', '☆']);
    assert_eq!(from_chars(&v, 0, 3), "가a☆");
    assert_eq!(from_chars(&v, 1, 2), "a");
    assert_eq!(from_chars(&v, 2, 2), "");
}

#[test]
fn equal_texts_are_told_from_unequal_ones() {
    assert!(text_eq("name", "name"));
    assert!(!text_eq("name", "names"));
    assert!(!text_eq("name", "nama"));
    assert!(text_eq("", ""));
}

#[test]
fn suffixes_are_told() {
    assert!(ends_with(&chars("a.json"), &chars(".json")));
    assert!(ends_with(&chars(".json"), &chars(".json")));
    assert!(!ends_with(&chars("json"), &chars(".json")));
    assert!(!ends_with(&chars("a.jsonl"), &chars(".json")));
}

#[test]
fn order_of_texts_is_the_order_of_strings() {
    let samples = ["", "a", "ab", "b", "B", "가", "2025-01-01", "2025-01-02", "a.json", "a"];
    for a in samples {
        for b in samples {
            assert_eq!(chars_le(&chars(a), &chars(b)), a <= b, "for {:?} and {:?}", a, b);
        }
    }
}

#[test]
fn lines_are_joined_with_line_feeds_between_them() {
    assert_eq!(join_lines(&vec![]), "");
    assert_eq!(join_lines(&vec!["a".to_string()]), "a");
    assert_eq!(join_lines(&vec!["a".to_string(), "b".to_string()]), "a\nb");
    assert_eq!(
        join_lines(&vec!["a".to_string(), "".to_string(), "c".to_string()]),
        "a\n\nc"
    );
}
