use loggy::text::{
    chars_eq, chars_to_string, contains_chars, lower_str, replace_chars, str_to_chars, text_has,
    to_lower, trim_chars, trim_start_chars, CharClass,
};

fn chars(s: &str) -> Vec<char> {
    s.chars().collect()
}

#[test]
fn lowercasing_touches_only_ascii_letters() {
    let v = to_lower(&chars("AbC-9\u{c9}"));
    assert_eq!(chars_to_string(&v), "abc-9\u{c9}");
}

#[test]
fn str_to_chars_round_trips() {
    let v = str_to_chars("h\u{e9}llo");
    assert_eq!(chars_to_string(&v), "h\u{e9}llo");
    assert_eq!(v.len(), 5);
}

#[test]
fn substring_search_finds_inner_matches() {
    assert!(contains_chars(&chars("token has expired"), &chars("has exp")));
    assert!(!contains_chars(&chars("token"), &chars("tokens")));
    assert!(contains_chars(&chars("abc"), &chars("")));
    assert!(text_has(&lower_str("SSO Token"), "sso token"));
}

#[test]
fn replacement_is_left_to_right_and_non_overlapping() {
    let r = replace_chars(&chars("aaa"), &chars("aa"), &chars("b"));
    assert_eq!(chars_to_string(&r), "ba");
    let r2 = replace_chars(&chars("xSdkErrorySdkError"), &chars("SdkError"), &chars(""));
    assert_eq!(chars_to_string(&r2), "xy");
    let r3 = replace_chars(&chars("ConnectorError!"), &chars("ConnectorError"), &chars("Connection error"));
    assert_eq!(chars_to_string(&r3), "Connection error!");
}

#[test]
fn trimming_strips_both_ends_by_class() {
    let r = trim_chars(&chars("((note: ok)) "), CharClass::WrapPunct);
    assert_eq!(chars_to_string(&r), "note: ok");
    let r2 = trim_chars(&chars(" \t body \r\n"), CharClass::Space);
    assert_eq!(chars_to_string(&r2), "body");
    let r3 = trim_start_chars(&chars("= https://x"), CharClass::KeyDelim);
    assert_eq!(chars_to_string(&r3), "https://x");
}

#[test]
fn character_vector_equality_is_by_contents() {
    assert!(chars_eq(&chars("abc"), &chars("abc")));
    assert!(!chars_eq(&chars("abc"), &chars("abd")));
    assert!(!chars_eq(&chars("abc"), &chars("ab")));
}
