use bear_rs::text::{chars_of, contains};

fn holds(hay: &str, needle: &str) -> bool {
    contains(&chars_of(hay), &chars_of(needle))
}

#[test]
fn chars_are_those_of_the_string() {
    assert_eq!(chars_of(""), Vec::<char>::new());
    assert_eq!(chars_of("a -c"), vec!['a', ' ', '-', 'c']);
    assert_eq!(chars_of("\u{e9}\u{4e2d}x"), vec!['\u{e9}', '\u{4e2d}', 'x']);
}

#[test]
fn needle_is_found_at_the_start_in_the_middle_and_at_the_end() {
    assert!(holds("abcdef", "abc"));
    assert!(holds("abcdef", "cd"));
    assert!(holds("abcdef", "ef"));
    assert!(holds("abcdef", "abcdef"));
    assert!(holds("aab", "ab"));
}

#[test]
fn needle_that_is_absent_is_not_found() {
    assert!(!holds("abcdef", "ac"));
    assert!(!holds("abc", "abcd"));
    assert!(!holds("", "a"));
    assert!(!holds("gcc -c", " -c "));
}

#[test]
fn empty_needle_is_found_everywhere() {
    assert!(holds("abc", ""));
    assert!(holds("", ""));
}

#[test]
fn search_agrees_with_the_standard_one() {
    let hays = ["", "a", "ab", "aab", "abab", " -c ", "gcc -c -o", "x.cpp.cc", "\u{e9}\u{e9}a\u{e9}"];
    let needles = ["", "a", "b", "ab", "ba", " -c ", ".c", ".cc", "\u{e9}a", "\u{e9}\u{e9}\u{e9}"];
    for hay in hays {
        for needle in needles {
            assert_eq!(holds(hay, needle), hay.contains(needle), "{:?} in {:?}", needle, hay);
        }
    }
}
