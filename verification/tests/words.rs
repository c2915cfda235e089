use aspen_client::number::{parse_number, push_decimal};
use aspen_client::text::{chars_of, collapse_whitespace, contains, string_of, strip_double_spaces};

#[test]
fn chars_and_back() {
    assert_eq!(chars_of(""), Vec::<char>::new());
    assert_eq!(chars_of("aé\u{1F600}"), vec!['a', 'é', '\u{1F600}']);
    assert_eq!(string_of(&vec!['a', 'é', '\u{1F600}']), "aé\u{1F600}");
    assert_eq!(string_of(&chars_of("Smith, Jane")), "Smith, Jane");
}

#[test]
fn contains_finds_runs_of_characters() {
    assert!(contains("abc", ""));
    assert!(contains("", ""));
    assert!(!contains("", "a"));
    assert!(contains("abc", "abc"));
    assert!(contains("abc", "bc"));
    assert!(contains("aab", "ab"));
    assert!(!contains("abc", "ac"));
    assert!(!contains("ab", "abc"));
    assert!(contains("xéy", "éy"));
    for (hay, needle) in [("hello world", "o w"), ("hello", "lo!"), ("aaaa", "aaa"), ("é", "e")] {
        assert_eq!(contains(hay, needle), hay.contains(needle));
    }
}

#[test]
fn newlines_and_tabs_become_spaces() {
    assert_eq!(collapse_whitespace(""), "");
    assert_eq!(collapse_whitespace("a\nb\tc d"), "a b c d");
    assert_eq!(collapse_whitespace("\n\n\t"), "   ");
    assert_eq!(collapse_whitespace("a\r\nb"), "a\r b");
    assert_eq!(collapse_whitespace("Smith, Jane"), "Smith, Jane");
}

#[test]
fn pairs_of_spaces_are_dropped() {
    assert_eq!(strip_double_spaces(""), "");
    assert_eq!(strip_double_spaces(" "), " ");
    assert_eq!(strip_double_spaces("  "), "");
    assert_eq!(strip_double_spaces("   "), " ");
    assert_eq!(strip_double_spaces("    "), "");
    assert_eq!(strip_double_spaces("Algebra  II"), "AlgebraII");
    assert_eq!(strip_double_spaces("a   b"), "a b");
    assert_eq!(strip_double_spaces("a b  c   d    e"), "a bc de");
    for s in ["x  y", "  lead", "trail  ", " a  b   c ", "no doubles"] {
        assert_eq!(strip_double_spaces(s), s.replace("  ", ""));
    }
}

#[test]
fn numbers_are_read_as_the_machine_word_allows() {
    assert_eq!(parse_number("204"), Some(204));
    assert_eq!(parse_number("0"), Some(0));
    assert_eq!(parse_number("007"), Some(7));
    assert_eq!(parse_number("+5"), Some(5));
    assert_eq!(parse_number(""), None);
    assert_eq!(parse_number("+"), None);
    assert_eq!(parse_number("-1"), None);
    assert_eq!(parse_number("++1"), None);
    assert_eq!(parse_number("12a"), None);
    assert_eq!(parse_number(" 12"), None);
    assert_eq!(parse_number("1 2"), None);
    assert_eq!(parse_number("\u{0663}"), None);
    assert_eq!(parse_number(&usize::MAX.to_string()), Some(usize::MAX));
    assert_eq!(parse_number("18446744073709551616"), "18446744073709551616".parse::<usize>().ok());
    assert_eq!(parse_number("99999999999999999999999999"), None);
    for s in ["1", "+0", "42", "4294967295", "4294967296", "a", "1+", "+ 1"] {
        assert_eq!(parse_number(s), s.parse::<usize>().ok());
    }
}

#[test]
fn numbers_are_written_without_leading_zeros() {
    for n in [0usize, 1, 9, 10, 11, 99, 100, 204, 1000, 65535, usize::MAX] {
        let mut out = String::from("room ");
        push_decimal(&mut out, n);
        assert_eq!(out, format!("room {}", n));
        assert_eq!(parse_number(&out[5..]), Some(n));
    }
}

#[test]
fn no_two_spaces_are_left_side_by_side() {
    for s in ["", " ", "a  b", "a   b", "  a    b     c ", " \t \n  x", "x      "] {
        let once = strip_double_spaces(&collapse_whitespace(s));
        assert!(!once.contains("  "));
        assert!(!once.contains('\n'));
        assert!(!once.contains('\t'));
        assert!(once.chars().count() <= s.chars().count());
    }
}

#[test]
fn a_text_is_found_in_whatever_surrounds_it() {
    for (before, after) in [("", ""), ("<p>", "</p>"), ("Invalid login", ""), ("\n\n", "\t")] {
        let hay = format!("{}Invalid login.{}", before, after);
        assert!(contains(&hay, "Invalid login."));
    }
}
