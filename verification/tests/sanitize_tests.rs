use acorn_backend::sanitize::{sanitize_classified, sanitize_string};
use acorn_backend::text::{chars_of, classify_white_space, concat3, contains, trim_bounds};

#[test]
fn sanitize_trims_and_replaces_typographic_characters() {
    assert_eq!(
        sanitize_string("  \u{201C}Hello\u{201D} \u{2013} world \n"),
        Some("\"Hello\" - world".to_string())
    );
}

#[test]
fn sanitize_refuses_text_of_white_space_only() {
    assert_eq!(sanitize_string(""), None);
    assert_eq!(sanitize_string(" \t\r\n\u{00A0}\u{3000}"), None);
}

#[test]
fn sanitize_keeps_inner_white_space_and_other_characters() {
    assert_eq!(sanitize_string("a  b\\c/d"), Some("a  b\\c/d".to_string()));
    assert_eq!(sanitize_string("x"), Some("x".to_string()));
}

#[test]
fn sanitize_classified_cuts_what_is_marked_at_both_ends() {
    let chars: Vec<char> = "xxa\u{201C}bxx".chars().collect();
    let marks = vec![true, true, false, false, false, true, true];
    assert_eq!(sanitize_classified(&chars, &marks), Some("a\"b".to_string()));
    let inner = vec![false, true, true, true, true, true, false];
    assert_eq!(sanitize_classified(&chars, &inner), Some("xxa\"bxx".to_string()));
    assert_eq!(sanitize_classified(&chars, &vec![true; 7]), None);
    assert_eq!(sanitize_classified(&vec![], &vec![]), None);
    assert_eq!(sanitize_classified(&vec!['\u{2013}'], &vec![false]), Some("-".to_string()));
}

#[test]
fn white_space_is_what_std_calls_white_space() {
    let chars: Vec<char> = " a\t\u{a0}\u{200b}\u{3000}_".chars().collect();
    assert_eq!(
        classify_white_space(&chars),
        vec![true, false, true, true, false, true, false]
    );
    assert_eq!(trim_bounds(&vec![true, false, true, false, true, true]), (1, 4));
    assert_eq!(trim_bounds(&vec![true, true]), (2, 2));
    assert_eq!(trim_bounds(&vec![]), (0, 0));
    assert_eq!(trim_bounds(&vec![false]), (0, 1));
}

#[test]
fn text_helpers() {
    assert_eq!(chars_of("h\u{e9}!"), vec!['h', '\u{e9}', '!']);
    assert_eq!(chars_of(""), Vec::<char>::new());
    assert_eq!(concat3("a", "", "bc"), "abc");
    assert!(contains("hello world", "o w"));
    assert!(contains("hello", ""));
    assert!(contains("", ""));
    assert!(contains("hello", "hello"));
    assert!(!contains("hello", "hello!"));
    assert!(!contains("", "a"));
    assert!(!contains("aab", "abb"));
    assert!(contains("aaab", "aab"));
    assert!(contains("na\u{ef}ve caf\u{e9}", "e c"));
}

#[test]
fn white_space_is_the_unicode_property() {
    let expected: Vec<u32> = vec![
        0x9, 0xa, 0xb, 0xc, 0xd, 0x20, 0x85, 0xa0, 0x1680, 0x2000, 0x2001, 0x2002, 0x2003, 0x2004,
        0x2005, 0x2006, 0x2007, 0x2008, 0x2009, 0x200a, 0x2028, 0x2029, 0x202f, 0x205f, 0x3000,
    ];
    let all: Vec<char> = (0..=0x10ffffu32).filter_map(char::from_u32).collect();
    let marks = classify_white_space(&all);
    let found: Vec<u32> =
        all.iter().zip(marks.iter()).filter(|(_, m)| **m).map(|(c, _)| *c as u32).collect();
    assert_eq!(found, expected);
}

#[test]
fn sanitising_twice_changes_nothing() {
    for text in ["  \u{201C}a\u{201D} \u{2013} b ", "x", "\u{a0}\"-\"\u{3000}", "- \" -"] {
        let once = sanitize_string(text).unwrap();
        assert_eq!(sanitize_string(&once), Some(once.clone()));
    }
}
