use mercer_voice::text::{
    chars_of, count_words, is_whitespace, make_decimal, parse_u64, split_words, str_eq,
    str_eq_ignore_ascii_case, str_is_blank, trim,
};

#[test]
fn white_space_is_the_unicode_set() {
    for c in ['\t', '\n', '\u{0B}', '\u{0C}', '\r', ' ', '\u{85}', '\u{A0}', '\u{1680}', '\u{2000}',
        '\u{200A}', '\u{2028}', '\u{2029}', '\u{202F}', '\u{205F}', '\u{3000}']
    {
        assert!(is_whitespace(c));
        assert!(c.is_whitespace());
    }
    for c in ['a', '0', '\u{08}', '\u{0E}', '\u{200B}', '\u{180E}', '\u{FEFF}', '-'] {
        assert!(!is_whitespace(c));
        assert!(!c.is_whitespace());
    }
}

#[test]
fn white_space_agrees_with_std_on_every_char() {
    let mut u: u32 = 0;
    while u <= 0x10FFFF {
        if let Some(c) = char::from_u32(u) {
            assert_eq!(is_whitespace(c), c.is_whitespace());
        }
        u += 1;
    }
}

#[test]
fn trim_removes_space_at_both_ends() {
    assert_eq!(trim("  hello world \n"), "hello world");
    assert_eq!(trim("hello"), "hello");
    assert_eq!(trim(""), "");
    assert_eq!(trim(" \t\u{3000} "), "");
    assert_eq!(trim("\u{A0}é t\u{2003}"), "é t");
}

#[test]
fn trim_agrees_with_std() {
    for s in ["", " ", "a", " a", "a ", " a b ", "\n\na\tb\r\n", "\u{3000}日本 語\u{3000}", "  \u{85}x"] {
        assert_eq!(trim(s), s.trim());
    }
}

#[test]
fn blank_means_nothing_but_white_space() {
    assert!(str_is_blank(""));
    assert!(str_is_blank(" \n\t"));
    assert!(!str_is_blank(" . "));
}

#[test]
fn words_are_the_runs_between_white_space() {
    assert_eq!(split_words("  um   uh "), vec!["um", "uh"]);
    assert_eq!(split_words("one"), vec!["one"]);
    assert_eq!(split_words(""), Vec::<&str>::new());
    assert_eq!(split_words(" \n "), Vec::<&str>::new());
    assert_eq!(split_words("a\u{3000}b\tc"), vec!["a", "b", "c"]);
}

#[test]
fn words_agree_with_std() {
    for s in ["", "a", " a  bb ccc ", "please send the report by noon", "é\u{A0}ü", "\n"] {
        let expected: Vec<&str> = s.split_whitespace().collect();
        assert_eq!(split_words(s), expected);
        assert_eq!(count_words(s), expected.len());
    }
}

#[test]
fn chars_of_gives_the_scalar_values() {
    assert_eq!(chars_of("aé→"), vec!['a', 'é', '→']);
    assert_eq!(chars_of(""), Vec::<char>::new());
}

#[test]
fn str_eq_compares_contents() {
    assert!(str_eq("", ""));
    assert!(str_eq("local", "local"));
    assert!(!str_eq("local", "Local"));
    assert!(!str_eq("local", "loca"));
    assert!(!str_eq("é", "e"));
}

#[test]
fn ascii_case_is_ignored_and_nothing_else() {
    assert!(str_eq_ignore_ascii_case("Missing Value", "missing value"));
    assert!(str_eq_ignore_ascii_case("MISSING VALUE", "missing value"));
    assert!(!str_eq_ignore_ascii_case("missing  value", "missing value"));
    assert!(!str_eq_ignore_ascii_case("É", "é"));
    assert!(str_eq_ignore_ascii_case("", ""));
    assert!(!str_eq_ignore_ascii_case("@", "`"));
    assert!(!str_eq_ignore_ascii_case("[", "{"));
}

#[test]
fn decimal_numbers_are_read() {
    assert_eq!(parse_u64("0"), Some(0));
    assert_eq!(parse_u64("1"), Some(1));
    assert_eq!(parse_u64("42"), Some(42));
    assert_eq!(parse_u64("+7"), Some(7));
    assert_eq!(parse_u64("007"), Some(7));
    assert_eq!(parse_u64("18446744073709551615"), Some(u64::MAX));
}

#[test]
fn what_is_no_decimal_number_is_refused() {
    assert_eq!(parse_u64(""), None);
    assert_eq!(parse_u64("+"), None);
    assert_eq!(parse_u64("-1"), None);
    assert_eq!(parse_u64("++1"), None);
    assert_eq!(parse_u64("1 "), None);
    assert_eq!(parse_u64(" 1"), None);
    assert_eq!(parse_u64("1.5"), None);
    assert_eq!(parse_u64("12a"), None);
    assert_eq!(parse_u64("١٢"), None);
    assert_eq!(parse_u64("18446744073709551616"), None);
    assert_eq!(parse_u64("99999999999999999999999"), None);
}

#[test]
fn parse_agrees_with_std() {
    for s in ["", "+", "0", "+0", "-0", "5", "120", "18446744073709551615", "18446744073709551616",
        "1e3", "0x10", " 3", "3\n", "+-3"]
    {
        assert_eq!(parse_u64(s), s.parse::<u64>().ok());
    }
}

#[test]
fn decimal_digits_are_written() {
    assert_eq!(make_decimal(0), "0");
    assert_eq!(make_decimal(9), "9");
    assert_eq!(make_decimal(10), "10");
    assert_eq!(make_decimal(429), "429");
    assert_eq!(make_decimal(1700000000123), "1700000000123");
    assert_eq!(make_decimal(u128::MAX), u128::MAX.to_string());
}
