use clawhire::text::{
    bool_to_text, chars_of, count_words, is_whitespace, join_path, prefix_chars, split_lines, str_contains, str_eq,
    str_starts_with, string_of_chars, trim, trim_start_matches_char, u64_to_decimal, usize_to_decimal,
};

#[test]
fn decimal_of_zero_and_of_large_numbers() {
    assert_eq!(u64_to_decimal(0), "0");
    assert_eq!(u64_to_decimal(7), "7");
    assert_eq!(u64_to_decimal(100_000_000), "100000000");
    assert_eq!(u64_to_decimal(u64::MAX), "18446744073709551615");
    assert_eq!(usize_to_decimal(42), "42");
}

#[test]
fn booleans_are_written_as_rust_writes_them() {
    assert_eq!(bool_to_text(true), "true");
    assert_eq!(bool_to_text(false), "false");
}

#[test]
fn characters_round_trip() {
    let cs = chars_of("héllo");
    assert_eq!(cs, vec!['h', 'é', 'l', 'l', 'o']);
    assert_eq!(string_of_chars(&cs), "héllo");
    assert_eq!(chars_of(""), Vec::<char>::new());
}

#[test]
fn equality_prefix_and_containment() {
    assert!(str_eq("abc", "abc"));
    assert!(!str_eq("abc", "abd"));
    assert!(str_starts_with("https://github.com/x", "http"));
    assert!(!str_starts_with("htt", "http"));
    assert!(str_starts_with("anything", ""));
    assert!(str_contains("a/../b", ".."));
    assert!(str_contains("abc", "c"));
    assert!(!str_contains("abc", "abcd"));
    assert!(str_contains("abc", ""));
    assert!(!str_contains("report.md", "/"));
}

#[test]
fn prefix_takes_at_most_n_characters() {
    assert_eq!(prefix_chars("abcdef", 3), "abc");
    assert_eq!(prefix_chars("ab", 3), "ab");
    assert_eq!(prefix_chars("ééé", 2), "éé");
    assert_eq!(prefix_chars("", 500), "");
}

#[test]
fn paths_join_like_pathbuf_push() {
    assert_eq!(join_path("storage/reports", "a.md"), "storage/reports/a.md");
    assert_eq!(join_path("storage/reports/", "a.md"), "storage/reports/a.md");
    assert_eq!(join_path("", "a.md"), "a.md");
    assert_eq!(join_path("base", "/etc/passwd"), "/etc/passwd");
    let expected = std::path::PathBuf::from("work").join("job-1");
    assert_eq!(join_path("work", "job-1"), expected.to_str().unwrap());
}

#[test]
fn words_are_counted_like_split_whitespace() {
    let cases = ["", "one", "  two words  ", "a\tb\nc", "   ", "x  y   z"];
    for c in cases {
        assert_eq!(count_words(c), c.split_whitespace().count(), "case {:?}", c);
    }
    assert_eq!(count_words("Completed review with 1 findings."), 5);
}

#[test]
fn unicode_whitespace_separates_words() {
    assert_eq!(count_words("a\u{3000}b"), 2);
    assert_eq!(count_words("a\u{00A0}b"), 2);
    assert_eq!(trim("\u{2003} x \u{3000}"), "x");
}

#[test]
fn trimming_matches_str_methods() {
    let cases = ["  # Title  ", "##Heading", "", "   ", "a b"];
    for c in cases {
        assert_eq!(trim(c), c.trim());
        assert_eq!(trim_start_matches_char(c, '#'), c.trim_start_matches('#'));
    }
    assert_eq!(trim(trim_start_matches_char("## Executive Summary ", '#').as_str()), "Executive Summary");
}

#[test]
fn lines_match_str_lines() {
    let cases = ["", "a", "a\nb", "a\n", "a\r\nb\r\n", "\n\nx", "a\r", "line\n\n"];
    for c in cases {
        let expected: Vec<String> = c.lines().map(|l| l.to_string()).collect();
        assert_eq!(split_lines(c), expected, "case {:?}", c);
    }
}


#[test]
fn whitespace_is_exactly_what_char_is_whitespace_says() {
    for u in 0u32..=0x10FFFF {
        if let Some(c) = char::from_u32(u) {
            assert_eq!(is_whitespace(c), c.is_whitespace(), "U+{:04X}", u);
        }
    }
}
