use ravenserver::text::{contains, parse_i64, replace, shorten};

#[test]
fn replace_removes_every_occurrence() {
    assert_eq!(replace("https://a.com/https://b", "https://", ""), "a.com/b");
    assert_eq!(replace("aaaa", "aa", "b"), "bb");
    assert_eq!(replace("abc", "x", "y"), "abc");
    assert_eq!(replace("", "x", "y"), "");
    assert_eq!(replace("héllo wörld", "ö", "o"), "héllo world");
}

#[test]
fn replace_takes_leftmost_non_overlapping_matches() {
    assert_eq!(replace("aaa", "aa", "X"), "Xa");
    assert_eq!(replace("abab", "ab", ""), "");
}

#[test]
fn contains_finds_substrings() {
    assert!(contains("/static/raven-nightly", "nightly"));
    assert!(!contains("/static/raven", "nightly"));
    assert!(contains("abc", ""));
    assert!(!contains("", "a"));
    assert!(contains("nightly", "nightly"));
}

#[test]
fn shorten_keeps_short_descriptions() {
    assert_eq!(shorten("A short one".to_string()), "A short one");
    let exactly = "x".repeat(35);
    assert_eq!(shorten(exactly.clone()), exactly);
}

#[test]
fn shorten_cuts_long_descriptions_at_35_bytes() {
    let long = "This is a rather long description of a theme".to_string();
    assert_eq!(shorten(long), "This is a rather long description o...");
    let multibyte = format!("{}é tail", "a".repeat(33));
    assert_eq!(shorten(multibyte), format!("{}é...", "a".repeat(33)));
}

#[test]
fn parse_i64_accepts_decimal_integers() {
    assert_eq!(parse_i64("0"), Some(0));
    assert_eq!(parse_i64("123"), Some(123));
    assert_eq!(parse_i64("+42"), Some(42));
    assert_eq!(parse_i64("-17"), Some(-17));
    assert_eq!(parse_i64("007"), Some(7));
    assert_eq!(parse_i64("9223372036854775807"), Some(i64::MAX));
    assert_eq!(parse_i64("-9223372036854775808"), Some(i64::MIN));
}

#[test]
fn parse_i64_refuses_what_from_str_radix_refuses() {
    for s in ["", "+", "-", "12a", " 1", "1 ", "--1", "+-1", "1.5", "9223372036854775808", "-9223372036854775809", "99999999999999999999999", "١٢"] {
        assert_eq!(parse_i64(s), None, "{:?}", s);
        assert!(i64::from_str_radix(s, 10).is_err(), "{:?}", s);
    }
    for s in ["0", "-0", "+5", "123456789", "-9223372036854775808"] {
        assert_eq!(parse_i64(s), i64::from_str_radix(s, 10).ok(), "{:?}", s);
    }
}
