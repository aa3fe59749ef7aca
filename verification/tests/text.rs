use entanglement_webapp::ids::parse_id;
use entanglement_webapp::order::{default_tab, sort_by_name, sorted_tab_names, text_less};
use entanglement_webapp::text::{
    decimal_text, first_line_of, is_blank_text, is_space_char, signed_decimal_text, split_words,
};

const SAMPLES: &[&str] = &[
    "",
    " ",
    "cat",
    "  cat dog  ",
    "a\tb\nc\r\nd",
    "x\u{00A0}y\u{2003}z\u{3000}w",
    "\u{85}lead",
    "one  two\u{202F}three",
    "emoji 🦀 here",
];

#[test]
fn split_words_cuts_like_split_whitespace() {
    for s in SAMPLES {
        let expected: Vec<String> = s.split_whitespace().map(|w| w.to_owned()).collect();
        assert_eq!(split_words(s), expected, "on {:?}", s);
    }
    assert_eq!(split_words("sunset  beach\tfamily"), vec!["sunset", "beach", "family"]);
}

#[test]
fn blank_is_empty_after_trim() {
    for s in SAMPLES {
        assert_eq!(is_blank_text(s), s.trim().is_empty(), "on {:?}", s);
    }
    assert!(is_blank_text(" \t\u{2028}"));
    assert!(!is_blank_text(" a "));
}

#[test]
fn space_characters_match_std() {
    for n in 0u32..0x3100 {
        if let Some(c) = char::from_u32(n) {
            assert_eq!(is_space_char(c), c.is_whitespace(), "on U+{:04X}", n);
        }
    }
    assert!(!is_space_char('\u{200B}'));
}

#[test]
fn first_line_matches_lines_next() {
    let notes = ["one", "one\ntwo", "one\r\ntwo", "one\r", "\nsecond", "a\rb\nc", "tail\n"];
    for s in notes {
        assert_eq!(first_line_of(s), s.lines().next().unwrap_or(""), "on {:?}", s);
    }
    assert_eq!(first_line_of("Beach day\r\nwith friends"), "Beach day");
}

#[test]
fn decimal_matches_display() {
    for n in [0u64, 7, 10, 99, 100, 305, 1_000_000, u64::MAX] {
        assert_eq!(decimal_text(n), n.to_string());
    }
    for n in [0i64, -1, 42, -305, i64::MIN, i64::MAX] {
        assert_eq!(signed_decimal_text(n), n.to_string());
    }
}

#[test]
fn ids_parse_like_str_parse() {
    let samples = [
        "0", "42", "+42", "-42", "", "+", "12a", " 1", "007", "18446744073709551615",
        "18446744073709551616", "99999999999999999999x",
    ];
    for s in samples {
        assert_eq!(parse_id(s), s.parse::<u64>().ok(), "on {:?}", s);
    }
    for n in [0u64, 5, 1234, u64::MAX] {
        assert_eq!(parse_id(&decimal_text(n)), Some(n));
    }
}

#[test]
fn text_order_matches_string_order() {
    let words = ["", "a", "ab", "b", "B", "Zebra", "zebra", "é", "e", "ab\u{10000}", "ab\u{FFFF}"];
    for a in words {
        for b in words {
            assert_eq!(text_less(a, b), a < b, "on {:?} {:?}", a, b);
        }
    }
}

#[test]
fn tab_names_sorted_and_first_is_default() {
    let names: Vec<String> = ["Search", "Bulk Edit", "Colors", "Advanced"].iter().map(|s| s.to_string()).collect();
    let sorted = sorted_tab_names(&names);
    assert_eq!(sorted, vec!["Advanced", "Bulk Edit", "Colors", "Search"]);
    assert_eq!(default_tab(&names), Some("Advanced".to_string()));
    assert_eq!(default_tab(&vec![]), None);
}

#[test]
fn album_sort_is_stable_by_name() {
    let albums: Vec<(u64, String)> = vec![
        (0, "Trip".into()),
        (1, "Birthday".into()),
        (2, "Trip".into()),
        (3, "Alps".into()),
        (4, "Birthday".into()),
    ];
    let sorted = sort_by_name(&albums);
    let mut expected = albums.clone();
    expected.sort_by(|a, b| a.1.cmp(&b.1));
    assert_eq!(sorted, expected);
    let keys: Vec<u64> = sorted.iter().map(|e| e.0).collect();
    assert_eq!(keys, vec![3, 1, 4, 0, 2]);
}

#[test]
fn words_grow_one_character_at_a_time() {
    // a letter right after a letter extends the last word
    assert_eq!(split_words("ab"), vec!["ab".to_string()]);
    // a letter after white space starts a new word
    assert_eq!(split_words("a b"), vec!["a".to_string(), "b".to_string()]);
    // white space at the end changes nothing
    assert_eq!(split_words("a b \t"), split_words("a b"));
    assert!(split_words("").is_empty());
}
