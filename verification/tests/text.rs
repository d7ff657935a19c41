use sned_server::text::{followed_by, join_lines, parse_bool};

#[test]
fn joins_lines_with_a_break_between_each_two() {
    assert_eq!(join_lines(&vec![]), "");
    assert_eq!(join_lines(&vec!["a".to_string()]), "a");
    let lines = vec!["ann".to_string(), "".to_string(), "bob".to_string()];
    assert_eq!(join_lines(&lines), "ann\n\nbob");
}

#[test]
fn reads_truth_values() {
    assert_eq!(parse_bool("true"), Some(true));
    assert_eq!(parse_bool("false"), Some(false));
    assert_eq!(parse_bool("True"), None);
    assert_eq!(parse_bool(" true"), None);
    assert_eq!(parse_bool(""), None);
}

#[test]
fn joins_two_texts() {
    assert_eq!(followed_by("a", "bc"), "abc");
    assert_eq!(followed_by("", ""), "");
}
