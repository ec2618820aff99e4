//! Texts and numerals, held against what the standard library does.
use spotify_lyrics::digits::{
    decimal_text, padded_text, parse_u64_text, signed_decimal_text,
};
use spotify_lyrics::text::{
    eq_ignore_ascii_case, is_space, join_texts, lines_of, same_text, trim_text, words_of,
};

const SAMPLES: [&str; 16] = [
    "",
    " ",
    "a",
    "  a b  ",
    "\u{3000}歌\u{3000}詞\u{3000}",
    "one\ntwo",
    "one\r\ntwo\r\n",
    "one\n\n\ntwo\n",
    "\n",
    "\r\n",
    "a\r",
    "a\rb\n",
    "\tx\u{a0}y\u{2003}z\u{85}",
    "[00:01.00] \u{feff}line",
    "\u{1680}\u{2028}q\u{2029}\u{202f}\u{205f}",
    "é ü 😀 end",
];

#[test]
fn white_space_is_that_of_unicode() {
    for n in 0..=0x10ffffu32 {
        if let Some(c) = char::from_u32(n) {
            assert_eq!(is_space(c), c.is_whitespace(), "{n:x}");
        }
    }
}

#[test]
fn trimming_is_that_of_std() {
    for s in SAMPLES {
        assert_eq!(trim_text(s), s.trim());
        assert_eq!(trim_text(&trim_text(s)), s.trim());
    }
}

#[test]
fn lines_are_those_of_std() {
    for s in SAMPLES {
        let expected: Vec<String> = s.lines().map(|l| l.to_string()).collect();
        assert_eq!(lines_of(s), expected, "{s:?}");
    }
}

#[test]
fn words_are_those_of_std() {
    for s in SAMPLES {
        let expected: Vec<String> = s.split_whitespace().map(|w| w.to_string()).collect();
        assert_eq!(words_of(s), expected, "{s:?}");
    }
}

#[test]
fn joining_puts_the_separator_between() {
    let parts = vec!["a".to_string(), "".to_string(), "c".to_string()];
    assert_eq!(join_texts(&parts, " - "), "a -  - c");
    assert_eq!(join_texts(&vec!["a".to_string()], ", "), "a");
    assert_eq!(join_texts(&Vec::new(), ", "), "");
}

#[test]
fn joined_lines_are_lines_again() {
    let parts = vec!["first".to_string(), "second one".to_string(), "歌".to_string()];
    assert_eq!(lines_of(&join_texts(&parts, "\n")), parts);
}

#[test]
fn texts_compare_as_in_std() {
    for a in SAMPLES {
        for b in SAMPLES {
            assert_eq!(same_text(a, b), a == b);
        }
    }
    for (a, b) in [("Playing", "PLAYING"), ("playing", "paused"), ("É", "é"), ("", ""), ("[", "{")] {
        assert_eq!(eq_ignore_ascii_case(a, b), a.eq_ignore_ascii_case(b));
    }
}

#[test]
fn numbers_print_as_in_std() {
    for n in [0u64, 7, 10, 99, 100, 1234567890, u64::MAX] {
        assert_eq!(decimal_text(n), n.to_string());
        assert_eq!(padded_text(n, 3), format!("{n:03}"));
    }
    for n in [0i64, -1, 42, -42, i64::MIN, i64::MAX] {
        assert_eq!(signed_decimal_text(n), n.to_string());
    }
}

#[test]
fn numbers_read_as_in_std() {
    for s in [
        "", "0", "7", "+7", "++7", "-7", "+", " 7", "7 ", "007", "18446744073709551615",
        "18446744073709551616", "99999999999999999999999", "1a", "١", "12.5",
    ] {
        assert_eq!(parse_u64_text(s), s.parse::<u64>().ok(), "{s:?}");
    }
}

#[test]
fn printed_numbers_read_back() {
    for n in [0u64, 5, 59, 100, 18446744073709551615] {
        for width in 0..25 {
            assert_eq!(parse_u64_text(&padded_text(n, width)), Some(n));
        }
    }
}
