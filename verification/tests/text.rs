use http_server::decimal::{decimal_string, signed_decimal_string};
use http_server::text::{
    char_is_whitespace, chars_of, run_length, run_length_back, split_first_word, str_eq, string_of,
    trimmed, CharClass,
};

fn chars(s: &str) -> Vec<char> {
    s.chars().collect()
}

fn text(s: &[char]) -> String {
    s.iter().collect()
}

#[test]
fn chars_of_gives_every_character_in_order() {
    assert_eq!(chars_of("a\u{e9}\u{4e2d}!"), vec!['a', '\u{e9}', '\u{4e2d}', '!']);
    assert_eq!(chars_of(""), Vec::<char>::new());
}

#[test]
fn string_of_is_the_inverse_of_chars_of() {
    let line = "GET /caf\u{e9} HTTP/1.1";
    assert_eq!(string_of(&chars_of(line)), line);
    assert_eq!(string_of(&[]), "");
}

#[test]
fn str_eq_compares_texts() {
    assert!(str_eq("GET", "GET"));
    assert!(str_eq("", ""));
    assert!(!str_eq("GET", "GEt"));
    assert!(!str_eq("GET", "GETS"));
    assert!(!str_eq("caf\u{e9}", "cafe"));
}

#[test]
fn white_space_is_the_unicode_property() {
    for c in [' ', '\t', '\n', '\u{b}', '\u{c}', '\r', '\u{85}', '\u{a0}', '\u{1680}', '\u{2000}',
        '\u{200a}', '\u{2028}', '\u{2029}', '\u{202f}', '\u{205f}', '\u{3000}']
    {
        assert!(char_is_whitespace(c), "{:?}", c);
    }
    for c in ['a', '0', ':', '\u{8}', '\u{e}', '\u{200b}', '\u{feff}', '\u{1f}'] {
        assert!(!char_is_whitespace(c), "{:?}", c);
    }
}

#[test]
fn white_space_agrees_with_std_on_every_character() {
    let mut code: u32 = 0;
    while code <= 0x10ffff {
        if let Some(c) = char::from_u32(code) {
            assert_eq!(char_is_whitespace(c), c.is_whitespace(), "U+{:04X}", code);
        }
        code += 1;
    }
}

#[test]
fn run_length_counts_the_leading_characters_of_a_class() {
    assert_eq!(run_length(&chars("  \tab "), CharClass::Space), 3);
    assert_eq!(run_length(&chars("ab cd"), CharClass::Visible), 2);
    assert_eq!(run_length(&chars("Host: a:b"), CharClass::Except(':')), 4);
    assert_eq!(run_length(&chars("no colon"), CharClass::Except(':')), 8);
    assert_eq!(run_length(&chars(""), CharClass::Space), 0);
    assert_eq!(run_length(&chars("x"), CharClass::Space), 0);
}

#[test]
fn run_length_back_counts_the_trailing_characters_of_a_class() {
    assert_eq!(run_length_back(&chars("ab \r\n"), CharClass::Space), 3);
    assert_eq!(run_length_back(&chars("ab"), CharClass::Space), 0);
    assert_eq!(run_length_back(&chars("   "), CharClass::Space), 3);
    assert_eq!(run_length_back(&chars(""), CharClass::Visible), 0);
}

#[test]
fn trimmed_drops_white_space_at_both_ends_only() {
    assert_eq!(text(trimmed(&chars("  a b \r\n"))), "a b");
    assert_eq!(text(trimmed(&chars("a"))), "a");
    assert_eq!(text(trimmed(&chars(" \t "))), "");
    assert_eq!(text(trimmed(&chars(""))), "");
    assert_eq!(text(trimmed(&chars("\u{a0}x\u{3000}"))), "x");
}

#[test]
fn trimmed_agrees_with_std_trim() {
    for s in ["", " ", "a", " a", "a ", "  a  b  ", "\r\nHost\t", "\u{2003}x y\u{85}"] {
        assert_eq!(text(trimmed(&chars(s))), s.trim());
    }
}

#[test]
fn split_first_word_takes_the_first_word_and_leaves_the_rest() {
    let line = chars("  GET  /index HTTP/1.1");
    let (word, rest) = split_first_word(&line);
    assert_eq!(text(word), "GET");
    assert_eq!(text(rest), "  /index HTTP/1.1");
    let (word, rest) = split_first_word(rest);
    assert_eq!(text(word), "/index");
    assert_eq!(text(rest), " HTTP/1.1");
}

#[test]
fn split_first_word_of_blank_text_is_empty() {
    let line = chars("   ");
    let (word, rest) = split_first_word(&line);
    assert_eq!(text(word), "");
    assert_eq!(text(rest), "");
}

#[test]
fn decimal_string_writes_numerals() {
    assert_eq!(decimal_string(0), "0");
    assert_eq!(decimal_string(7), "7");
    assert_eq!(decimal_string(10), "10");
    assert_eq!(decimal_string(15), "15");
    assert_eq!(decimal_string(404), "404");
    assert_eq!(decimal_string(1234567890), "1234567890");
    assert_eq!(decimal_string(usize::MAX), usize::MAX.to_string());
}

#[test]
fn signed_decimal_string_writes_the_sign() {
    assert_eq!(signed_decimal_string(0), "0");
    assert_eq!(signed_decimal_string(404), "404");
    assert_eq!(signed_decimal_string(-5), "-5");
    assert_eq!(signed_decimal_string(i32::MAX), "2147483647");
    assert_eq!(signed_decimal_string(i32::MIN), "-2147483648");
}
