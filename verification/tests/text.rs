//! Operations on texts, against those of the standard library.

use huskarl_pingora::text::{
    bool_text, cat, cat3, chars_of, contains_char, contains_text, decimal_text, find_in, has_word,
    joined, parse_number, same, space, split_all, split_first, starts_with_char, string_of,
    strip_text, text_precedes, trimmed, trimmed_end_of,
};

const SAMPLES: &[&str] = &[
    "",
    "a",
    "=",
    "a=b",
    "a=b=c",
    " a = b ",
    "\u{a0}x\u{2003}",
    "\u{e9}=\u{1f600}",
    "//a//",
    "==",
    "ab",
    "aab",
    "+1",
    "-1",
    "007",
    "1 ",
    "+",
    "18446744073709551615",
    "18446744073709551616",
    "99999999999999999999999",
];

#[test]
fn whitespace_is_that_of_unicode() {
    for c in '\0'..=char::MAX {
        assert_eq!(space(c), c.is_whitespace(), "{c:?}");
    }
}

#[test]
fn numbers_are_read_and_written_as_decimals() {
    for s in SAMPLES {
        assert_eq!(parse_number(s), s.parse::<usize>().ok(), "{s:?}");
    }
    for n in [0, 9, 10, 3800, usize::MAX] {
        assert_eq!(decimal_text(n), n.to_string());
        assert_eq!(parse_number(&decimal_text(n)), Some(n));
    }
}

#[test]
fn parts_of_texts() {
    for s in SAMPLES {
        for c in ['=', '/', 'a', '\u{1f600}'] {
            let expected = s.split_once(c).map(|(a, b)| (a.to_owned(), b.to_owned()));
            assert_eq!(split_first(s, c), expected);
            let expected: Vec<&str> = s.split(c).collect();
            assert_eq!(split_all(s, c), expected);
            assert_eq!(contains_char(s, c), s.contains(c));
            assert_eq!(starts_with_char(s, c), s.starts_with(c));
            assert_eq!(trimmed_end_of(s, c), s.trim_end_matches(c));
            let chars = chars_of(s);
            let position = chars.iter().position(|x| *x == c);
            assert_eq!(find_in(&chars, c, 0), position.unwrap_or(chars.len()));
        }
        assert_eq!(trimmed(s), s.trim());
        assert_eq!(string_of(&chars_of(s), 0, chars_of(s).len()), *s);
    }
}

#[test]
fn pairs_of_texts() {
    for a in SAMPLES {
        for b in SAMPLES {
            assert_eq!(same(a, b), a == b);
            assert_eq!(cat(a, b), format!("{a}{b}"));
            assert_eq!(cat3(a, "-", b), format!("{a}-{b}"));
            assert_eq!(contains_text(a, b), a.contains(b));
            assert_eq!(strip_text(a, b).as_deref(), a.strip_prefix(b));
            assert_eq!(text_precedes(a, b), a < b, "{a:?} {b:?}");
            assert_eq!(has_word(a, b), a.split_whitespace().any(|w| w == *b));
            let parts = vec![a.to_string(), b.to_string()];
            assert_eq!(joined(&parts, ", "), parts.join(", "));
        }
    }
    assert_eq!(joined(&vec![], " "), "");
    assert_eq!(bool_text(true), "true");
    assert_eq!(bool_text(false), "false");
}
