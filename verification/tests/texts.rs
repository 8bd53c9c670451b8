use stblib::number::{i64_to_string, parse_i64};
use stblib::string::{contains_whitespace, escape_ansi, is_empty_or_whitespace};
use stblib::text::{
    find, from_chars, is_whitespace, replace, replace_str, split_whitespace, str_eq, to_chars, trim,
};

fn chars(s: &str) -> Vec<char> {
    s.chars().collect()
}

#[test]
fn chars_round_trip() {
    assert_eq!(to_chars("aä🍓"), vec!['a', 'ä', '🍓']);
    assert_eq!(from_chars(&vec!['a', 'ä', '🍓']), "aä🍓");
    assert_eq!(to_chars(""), Vec::<char>::new());
}

#[test]
fn str_eq_compares_characters() {
    assert!(str_eq("", ""));
    assert!(str_eq("abc", "abc"));
    assert!(!str_eq("abc", "abd"));
    assert!(!str_eq("abc", "ab"));
    assert!(!str_eq("", "a"));
}

#[test]
fn replace_is_leftmost_and_does_not_overlap() {
    assert_eq!(replace_str("aaa", "aa", "b"), "ba");
    assert_eq!(replace_str("abcabc", "bc", ""), "aa");
    assert_eq!(replace_str("abc", "x", "y"), "abc");
    assert_eq!(replace_str("abc", "", "y"), "abc");
    assert_eq!(replace_str("", "a", "b"), "");
    assert_eq!(replace_str("a-b-c", "-", "--"), "a--b--c");
    assert_eq!(replace_str("{red}x{red}", "{red}", "\x1b[31m"), "\x1b[31mx\x1b[31m");
    assert_eq!(replace(&chars("xyx"), &chars("x"), &chars("xx")), chars("xxyxx"));
    assert_eq!(replace_str("aaa", "aa", "b"), "aaa".replace("aa", "b"));
}

#[test]
fn find_gives_the_first_occurrence() {
    assert_eq!(find(&chars("a%s b%s"), &chars("%s")), Some(1));
    assert_eq!(find(&chars("abc"), &chars("c")), Some(2));
    assert_eq!(find(&chars("abc"), &chars("abc")), Some(0));
    assert_eq!(find(&chars("abc"), &chars("abcd")), None);
    assert_eq!(find(&chars("abc"), &chars("x")), None);
    assert_eq!(find(&chars(""), &chars("")), Some(0));
    assert_eq!(find(&chars("ab"), &chars("")), Some(0));
}

#[test]
fn whitespace_is_the_unicode_property() {
    for c in [' ', '\t', '\n', '\r', '\u{b}', '\u{c}', '\u{85}', '\u{a0}', '\u{1680}', '\u{2003}',
        '\u{2028}', '\u{2029}', '\u{202f}', '\u{205f}', '\u{3000}']
    {
        assert!(is_whitespace(c));
    }
    for c in ['a', '0', '_', '\u{200b}', '\u{feff}', '\u{1c}', '\0'] {
        assert_eq!(is_whitespace(c), c.is_whitespace());
        assert!(!is_whitespace(c));
    }
}

#[test]
fn split_whitespace_gives_the_words() {
    assert_eq!(split_whitespace(&chars("  a  bc\td \n")), vec!["a", "bc", "d"]);
    assert_eq!(split_whitespace(&chars("")), Vec::<String>::new());
    assert_eq!(split_whitespace(&chars(" \t ")), Vec::<String>::new());
    assert_eq!(split_whitespace(&chars("one")), vec!["one"]);
}

#[test]
fn trim_takes_whitespace_off_both_ends() {
    assert_eq!(trim("  a b \n"), "a b");
    assert_eq!(trim("a"), "a");
    assert_eq!(trim(""), "");
    assert_eq!(trim(" \t\n"), "");
    assert_eq!(trim("\u{a0}x\u{3000}"), "x");
}

#[test]
fn parse_i64_reads_decimal_numbers() {
    assert_eq!(parse_i64("0"), Some(0));
    assert_eq!(parse_i64("42"), Some(42));
    assert_eq!(parse_i64("+42"), Some(42));
    assert_eq!(parse_i64("-42"), Some(-42));
    assert_eq!(parse_i64("007"), Some(7));
    assert_eq!(parse_i64("-0"), Some(0));
    assert_eq!(parse_i64("9223372036854775807"), Some(i64::MAX));
    assert_eq!(parse_i64("-9223372036854775808"), Some(i64::MIN));
    assert_eq!(parse_i64("9223372036854775808"), None);
    assert_eq!(parse_i64("-9223372036854775809"), None);
    assert_eq!(parse_i64("99999999999999999999999"), None);
    assert_eq!(parse_i64(""), None);
    assert_eq!(parse_i64("+"), None);
    assert_eq!(parse_i64("-"), None);
    assert_eq!(parse_i64("1 "), None);
    assert_eq!(parse_i64(" 1"), None);
    assert_eq!(parse_i64("1_000"), None);
    assert_eq!(parse_i64("12a"), None);
    assert_eq!(parse_i64("--1"), None);
    assert_eq!(parse_i64("１"), None);
    for text in ["0", "+5", "-17", "0012", "x", "", "9223372036854775808"] {
        assert_eq!(parse_i64(text), text.parse::<i64>().ok());
    }
}

#[test]
fn i64_to_string_writes_plain_decimal() {
    assert_eq!(i64_to_string(0), "0");
    assert_eq!(i64_to_string(7), "7");
    assert_eq!(i64_to_string(-7), "-7");
    assert_eq!(i64_to_string(1234567890), "1234567890");
    assert_eq!(i64_to_string(i64::MAX), "9223372036854775807");
    assert_eq!(i64_to_string(i64::MIN), "-9223372036854775808");
}

#[test]
fn escape_ansi_takes_escape_sequences_out() {
    assert_eq!(escape_ansi("\x1b[31mred\x1b[0m"), "red");
    assert_eq!(escape_ansi("plain"), "plain");
    assert_eq!(escape_ansi(""), "");
    assert_eq!(escape_ansi("\x1b[1m\x1b[34mbold blue\x1b[0m!"), "bold blue!");
}

#[test]
fn contains_whitespace_looks_for_spaces() {
    assert!(contains_whitespace("a b"));
    assert!(contains_whitespace(" "));
    assert!(!contains_whitespace("ab"));
    assert!(!contains_whitespace(""));
    assert!(!contains_whitespace("a\tb"));
}

#[test]
fn is_empty_or_whitespace_accepts_only_whitespace() {
    assert!(is_empty_or_whitespace(""));
    assert!(is_empty_or_whitespace(" \t\n"));
    assert!(is_empty_or_whitespace("\u{3000}"));
    assert!(!is_empty_or_whitespace(" a "));
    assert!(!is_empty_or_whitespace("a"));
}
