use rusty_grep::line_grep::LineGrep;

#[test]
fn non_regex_case_sensitive() {
    let test_string = "This is a test string...".to_string();
    let mut grep = LineGrep::new(r"test string".to_string(), false).unwrap();
    let (start, end) = grep.feed(&test_string).unwrap_or_else(|| (0, 0));
    assert_eq!((start, end), (10, 21));
}

#[test]
fn non_regex_case_insensitive() {
    let test_string = "This is a test string...".to_string();
    let mut grep = LineGrep::new(r"tEsT sTrInG".to_string(), true).unwrap();
    let (start, end) = grep.feed(&test_string).unwrap_or_else(|| (0, 0));
    assert_eq!((start, end), (10, 21));
}

#[test]
fn regex_case_sensitive() {
    let test_string = "This is a test string...".to_string();
    let mut grep = LineGrep::new(r"^.+:?((is ){2}).+$".to_string(), false).unwrap();
    let (start, end) = grep.feed(&test_string).unwrap_or_else(|| (0, 0));
    assert_eq!((start, end), (0, test_string.len()));
}

#[test]
fn regex_case_insensitive() {
    let test_string = "This is a test string...".to_string();
    let mut grep = LineGrep::new(r"^.+:?((IS ){2}).+$".to_string(), true).unwrap();
    let (start, end) = grep.feed(&test_string).unwrap_or_else(|| (0, 0));
    assert_eq!((start, end), (0, test_string.len()));
}

#[test]
fn case_sensitive_pattern_rejects_other_case() {
    let test_string = "This is a test string...".to_string();
    let mut grep = LineGrep::new(r"tEsT sTrInG".to_string(), false).unwrap();
    assert_eq!(grep.feed(&test_string), None);
}

#[test]
fn invalid_pattern_is_rejected() {
    assert!(LineGrep::new(r"((".to_string(), false).is_err());
    assert!(LineGrep::new(r"[z-a]".to_string(), true).is_err());
}

#[test]
fn valid_pattern_compiles_either_way() {
    assert!(LineGrep::new(r"a+b".to_string(), false).is_ok());
    assert!(LineGrep::new(r"a+b".to_string(), true).is_ok());
}

#[test]
fn no_match_is_none() {
    let mut grep = LineGrep::new(r"xyz".to_string(), false).unwrap();
    assert_eq!(grep.feed(&"abcdef".to_string()), None);
}

#[test]
fn leftmost_match_is_reported() {
    let mut grep = LineGrep::new(r"ab".to_string(), false).unwrap();
    assert_eq!(grep.feed(&"zzabzzab".to_string()), Some((2, 4)));
}

#[test]
fn span_is_within_line_bounds() {
    let line = "This is a test string...".to_string();
    let mut grep = LineGrep::new(r"string".to_string(), false).unwrap();
    let (start, end) = grep.feed(&line).unwrap();
    assert!(start <= end && end <= line.len());
}
