use deploy_multi_chain::text::{
    chars_of, decimal_string, find_char, find_in, matches_at, same_chars, same_text, starts_with,
};

fn chars(s: &str) -> Vec<char> {
    s.chars().collect()
}

#[test]
fn chars_of_keeps_every_character() {
    assert_eq!(chars_of("a/é"), vec!['a', '/', 'é']);
    assert_eq!(chars_of(""), Vec::<char>::new());
}

#[test]
fn same_text_compares_whole_texts() {
    assert!(same_text("--all", "--all"));
    assert!(!same_text("--all", "--al"));
    assert!(!same_text("--all", "--alL"));
    assert!(same_text("", ""));
    assert!(same_chars(&chars("ab"), &chars("ab")));
    assert!(!same_chars(&chars("ab"), &chars("ba")));
}

#[test]
fn starts_with_checks_the_prefix() {
    assert!(starts_with("--flag", "--"));
    assert!(!starts_with("-flag", "--"));
    assert!(!starts_with("-", "--"));
    assert!(starts_with("anything", ""));
}

#[test]
fn matches_at_checks_one_place() {
    let hay = chars("abcabc");
    assert!(matches_at(&hay, &chars("bc"), 1));
    assert!(!matches_at(&hay, &chars("bc"), 2));
    assert!(matches_at(&hay, &chars("bc"), 4));
    assert!(!matches_at(&hay, &chars("bc"), 5));
    assert!(matches_at(&hay, &chars(""), 6));
    assert!(!matches_at(&hay, &chars(""), 7));
}

#[test]
fn find_in_gives_the_first_occurrence() {
    let hay = chars("abcabc");
    assert_eq!(find_in(&hay, &chars("bc"), 0), Some(1));
    assert_eq!(find_in(&hay, &chars("bc"), 2), Some(4));
    assert_eq!(find_in(&hay, &chars("bc"), 5), None);
    assert_eq!(find_in(&hay, &chars("x"), 0), None);
    assert_eq!(find_in(&hay, &chars("abcabcd"), 0), None);
    assert_eq!(find_in(&hay, &chars(""), 6), Some(6));
    assert_eq!(find_in(&hay, &chars(""), 7), None);
}

#[test]
fn find_char_gives_the_length_when_absent() {
    let hay = chars("a/b/c");
    assert_eq!(find_char(&hay, '/', 0), 1);
    assert_eq!(find_char(&hay, '/', 2), 3);
    assert_eq!(find_char(&hay, '/', 4), 5);
    assert_eq!(find_char(&hay, '/', 9), 5);
}

#[test]
fn decimal_string_writes_numerals() {
    assert_eq!(decimal_string(0), "0");
    assert_eq!(decimal_string(7), "7");
    assert_eq!(decimal_string(10), "10");
    assert_eq!(decimal_string(1700000000), "1700000000");
    assert_eq!(decimal_string(u64::MAX), "18446744073709551615");
}
