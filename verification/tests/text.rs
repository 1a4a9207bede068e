use logfix::format::{detect, LogFormat};
use logfix::severity::to_lower;
use logfix::text::{chars_of, find, is_blank_char, matches_at, skip_blank};

fn chars(text: &str) -> Vec<char> {
    text.chars().collect()
}

#[test]
fn blank_characters_are_the_white_space_of_unicode() {
    for code in 0..=0x10ffffu32 {
        if let Some(c) = char::from_u32(code) {
            assert_eq!(is_blank_char(c), c.is_whitespace());
        }
    }
}

#[test]
fn lower_case_is_that_of_ascii() {
    for code in 0..=0x10ffffu32 {
        if let Some(c) = char::from_u32(code) {
            assert_eq!(to_lower(c), c.to_ascii_lowercase());
        }
    }
}

#[test]
fn chars_of_gives_every_character() {
    assert_eq!(chars_of(""), chars(""));
    assert_eq!(chars_of("aé日🦀\n"), vec!['a', 'é', '日', '🦀', '\n']);
}

#[test]
fn find_gives_the_first_occurrence() {
    assert_eq!(find(&chars("abcabc"), &chars("bc")), Some(1));
    assert_eq!(find(&chars("abcabc"), &chars("abc")), Some(0));
    assert_eq!(find(&chars("abcabc"), &chars("c")), Some(2));
    assert_eq!(find(&chars("aab"), &chars("ab")), Some(1));
    assert_eq!(find(&chars("日本語"), &chars("語")), Some(2));
}

#[test]
fn find_gives_nothing_where_the_pattern_is_missing() {
    assert_eq!(find(&chars("abc"), &chars("d")), None);
    assert_eq!(find(&chars("abc"), &chars("abcd")), None);
    assert_eq!(find(&chars(""), &chars("a")), None);
    assert_eq!(find(&chars("ab"), &chars("ba")), None);
}

#[test]
fn empty_pattern_occurs_at_the_start() {
    assert_eq!(find(&chars("abc"), &chars("")), Some(0));
    assert_eq!(find(&chars(""), &chars("")), Some(0));
}

#[test]
fn matches_at_looks_at_one_place_only() {
    assert!(matches_at(&chars("abc"), 1, &chars("bc")));
    assert!(!matches_at(&chars("abc"), 0, &chars("bc")));
    assert!(!matches_at(&chars("abc"), 2, &chars("bc")));
    assert!(matches_at(&chars("abc"), 3, &chars("")));
    assert!(!matches_at(&chars("abc"), 4, &chars("")));
    assert!(!matches_at(&chars("abc"), usize::MAX, &chars("a")));
}

#[test]
fn skip_blank_counts_the_leading_white_space() {
    assert_eq!(skip_blank(&chars("")), 0);
    assert_eq!(skip_blank(&chars("a ")), 0);
    assert_eq!(skip_blank(&chars(" \t\r\n\u{3000}a b")), 5);
    assert_eq!(skip_blank(&chars("   ")), 3);
}

fn format_by_the_rules(contents: &str) -> LogFormat {
    if contents.trim().starts_with('{') {
        LogFormat::Json
    } else if contents.trim().starts_with("---") || contents.contains(":\n") {
        LogFormat::Yaml
    } else if contents.contains('=') {
        LogFormat::Toml
    } else {
        LogFormat::Plain
    }
}

#[test]
fn detect_follows_the_rules_in_their_order() {
    let pieces = ["", " ", "\n", "{", "---", "--", ":\n", ":", "=", "a", "\u{2003}", "}", "\t"];
    for first in pieces {
        for second in pieces {
            for third in pieces {
                let text = format!("{}{}{}", first, second, third);
                assert_eq!(detect(&text), format_by_the_rules(&text));
            }
        }
    }
}
