use dictum_core::scan::{
    contains_chars, find_first, lines, remove_all, split_segments, starts_with_chars, tail_from, trim_chars, TrimSet,
};
use dictum_core::scan::char_is_whitespace;
use dictum_core::text::{
    chars_of, decimal_i64, decimal_u64, join_strings, split_first, str_eq, trim_end_matches_char, wide,
};

fn cs(s: &str) -> Vec<char> {
    s.chars().collect()
}

fn strs(v: Vec<Vec<char>>) -> Vec<String> {
    v.into_iter().map(|l| l.into_iter().collect()).collect()
}

#[test]
fn decimal_rendering_matches_to_string() {
    assert_eq!(decimal_u64(0), "0");
    assert_eq!(decimal_u64(1234567890), "1234567890");
    assert_eq!(decimal_u64(u64::MAX), u64::MAX.to_string());
    assert_eq!(decimal_i64(-42), "-42");
    assert_eq!(decimal_i64(i64::MIN), i64::MIN.to_string());
    assert_eq!(decimal_i64(7), "7");
}

#[test]
fn wide_strings_are_utf16_with_terminator() {
    assert_eq!(wide("Hi"), vec![0x48, 0x69, 0]);
    let s = "a\u{1F600}é";
    let mut expected: Vec<u16> = s.encode_utf16().collect();
    expected.push(0);
    assert_eq!(wide(s), expected);
}

#[test]
fn strings_compare_by_characters() {
    let s = "grüße, мир";
    assert_eq!(chars_of(s), s.chars().collect::<Vec<char>>());
    assert!(str_eq("abc", "abc"));
    assert!(!str_eq("abc", "abd"));
    assert!(!str_eq("abc", "abcd"));
}

#[test]
fn whitespace_matches_std_for_every_char() {
    for c in (0u32..=0x10FFFF).filter_map(char::from_u32) {
        assert_eq!(char_is_whitespace(c), c.is_whitespace(), "{:?}", c);
    }
}

#[test]
fn join_and_trim_helpers() {
    let parts = vec!["ctrl".to_string(), "shift".to_string(), "a".to_string()];
    assert_eq!(join_strings(&parts, "+"), "ctrl+shift+a");
    assert_eq!(join_strings(&vec![], "+"), "");
    assert_eq!(trim_end_matches_char("http://x///", '/'), "http://x");
    assert_eq!(trim_end_matches_char("///", '/'), "");
    let v = cs("ru-phonetic");
    assert_eq!(split_first(&v, '-'), &cs("ru")[..]);
    let w = cs("plain");
    assert_eq!(split_first(&w, '-'), &w[..]);
}

#[test]
fn trimming_follows_str_trim() {
    assert_eq!(trim_chars(&cs("  \t value \n"), TrimSet::WhiteSpace), cs("value"));
    assert_eq!(trim_chars(&cs(" \"US\";"), TrimSet::QuotesSemicolonsSpaces), cs("US"));
    assert_eq!(trim_chars(&cs("   "), TrimSet::WhiteSpace), cs(""));
}

#[test]
fn lines_and_segments_follow_std() {
    let text = "a\r\nb\n\nc";
    let expected: Vec<String> = text.lines().map(|l| l.to_string()).collect();
    assert_eq!(strs(lines(&cs(text))), expected);
    assert_eq!(strs(lines(&cs("x\n"))), vec!["x"]);
    assert!(lines(&cs("")).is_empty());
    assert_eq!(strs(split_segments(&cs("a:b::c"), ':')), vec!["a", "b", "", "c"]);
    assert_eq!(strs(split_segments(&cs(""), ':')), vec![""]);
}

#[test]
fn searching_helpers() {
    assert!(contains_chars(&cs("the \"Input Source ID\" key"), &cs("\"Input Source ID\"")));
    assert!(!contains_chars(&cs("short"), &cs("longer pattern")));
    assert!(starts_with_chars(&cs("com.apple.x"), &cs("com.apple")));
    assert!(!starts_with_chars(&cs("org.apple"), &cs("com.apple")));
    assert_eq!(find_first(&cs("a=b=c"), '='), Some(1));
    assert_eq!(find_first(&cs("abc"), '='), None);
    assert_eq!(remove_all(&cs("Russian - PC"), ' '), cs("Russian-PC"));
    assert_eq!(tail_from(&cs("key=value"), 4), cs("value"));
}
