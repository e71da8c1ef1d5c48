use lsctl::text::{chars_of, decimal_text, string_of, strings};
use lsctl::words::{
    contains_text, distinct_texts, first_words_of, glue, join, join_hash_set_of_strings, split_text,
    trim_text,
};

fn list(items: &[&str]) -> Vec<String> {
    items.iter().map(|s| s.to_string()).collect()
}

#[test]
fn characters_round_trip() {
    let chars = chars_of("aé✓");
    assert_eq!(chars, vec!['a', 'é', '✓']);
    assert_eq!(string_of(&chars), "aé✓");
    assert_eq!(strings(&vec!["a", "b"]), list(&["a", "b"]));
}

#[test]
fn numbers_are_written_in_decimal() {
    assert_eq!(decimal_text(0), "0");
    assert_eq!(decimal_text(7), "7");
    assert_eq!(decimal_text(10), "10");
    assert_eq!(decimal_text(65535), "65535");
    assert_eq!(decimal_text(u64::MAX), "18446744073709551615");
}

#[test]
fn split_gives_one_piece_more_than_separators() {
    assert_eq!(split_text("", ' '), list(&[""]));
    assert_eq!(split_text("a b", ' '), list(&["a", "b"]));
    assert_eq!(split_text("a  b ", ' '), list(&["a", "", "b", ""]));
    assert_eq!(split_text(" a", ' '), list(&["", "a"]));
    assert_eq!(split_text("x\ny\n", '\n'), list(&["x", "y", ""]));
}

#[test]
fn trim_removes_white_space_at_both_ends() {
    assert_eq!(trim_text("  a b\t\n"), "a b");
    assert_eq!(trim_text("\u{2003}x\u{a0}"), "x");
    assert_eq!(trim_text("   "), "");
    assert_eq!(trim_text(""), "");
    assert_eq!(trim_text("x"), "x");
}

#[test]
fn first_words_of_lines() {
    let listing = "NAME          DIGEST  CREATED AT\nDATABASE_URL  abc     1h ago\n  TOKEN x\n\n";
    assert_eq!(first_words_of(listing), list(&["NAME", "DATABASE_URL", "TOKEN", "", ""]));
}

#[test]
fn lists_without_repetition() {
    assert_eq!(distinct_texts(&list(&["a", "b", "a", "c", "b"])), list(&["a", "b", "c"]));
    assert_eq!(distinct_texts(&list(&[])), list(&[]));
    assert!(contains_text(&list(&["a", "b"]), "b"));
    assert!(!contains_text(&list(&["a", "b"]), "c"));
}

#[test]
fn join_puts_the_separator_between() {
    assert_eq!(join(&list(&[]), ", "), "");
    assert_eq!(join(&list(&["a"]), ", "), "a");
    assert_eq!(join(&list(&["a", "b", "c"]), ", "), "a, b, c");
    assert_eq!(join_hash_set_of_strings(&list(&["ord", "lhr"]), ", "), "ord, lhr");
    assert_eq!(glue(&vec!["a", "", "bc"]), "abc");
}

#[test]
fn white_space_is_what_the_characters_say() {
    for code in 0..=0x10FFFFu32 {
        if let Some(c) = char::from_u32(code) {
            let text = c.to_string();
            assert_eq!(trim_text(&text).is_empty(), c.is_whitespace(), "U+{:04X}", code);
        }
    }
}

#[test]
fn strings_are_found_by_their_characters() {
    assert!(contains_text(&list(&["", "é✓"]), "é✓"));
    assert!(contains_text(&list(&["", "é✓"]), ""));
    assert!(!contains_text(&list(&["ab", "abc"]), "a"));
    assert!(!contains_text(&list(&["ab"]), "ac"));
}
