use pksc::builtin::regex::{replace, replace_all, rmatch, RegexError};

#[test]
fn rmatch_lists_whole_match_then_groups() {
    let m = rmatch("key=value; k2=v2", r"(\w+)=(\w+)").unwrap();
    assert_eq!(
        m,
        vec![
            vec!["key=value".to_string(), "key".to_string(), "value".to_string()],
            vec!["k2=v2".to_string(), "k2".to_string(), "v2".to_string()],
        ]
    );
}

#[test]
fn rmatch_leaves_out_groups_that_did_not_take_part() {
    let m = rmatch("a1 b", r"([a-z])(\d)?").unwrap();
    assert_eq!(
        m,
        vec![
            vec!["a1".to_string(), "a".to_string(), "1".to_string()],
            vec!["b".to_string(), "b".to_string()],
        ]
    );
}

#[test]
fn rmatch_without_matches_is_empty() {
    assert!(rmatch("abc", r"\d+").unwrap().is_empty());
}

#[test]
fn rmatch_supports_lookaround() {
    let m = rmatch("price: 42 EUR", r"\d+(?= EUR)").unwrap();
    assert_eq!(m, vec![vec!["42".to_string()]]);
}

#[test]
fn bad_pattern_is_a_compile_error() {
    match rmatch("abc", "(unclosed") {
        Err(RegexError::Compile { message }) => {
            assert!(message.starts_with("Could not compile regex pattern: "));
            assert!(message.len() > "Could not compile regex pattern: ".len());
        },
        other => panic!("expected a compile error, got {other:?}"),
    }
    assert!(matches!(replace("a", "[", "b"), Err(RegexError::Compile { .. })));
    assert!(matches!(replace_all("a", "(?<", "b"), Err(RegexError::Compile { .. })));
}

#[test]
fn replace_all_replaces_every_match() {
    assert_eq!(replace_all("a-b-c", "-", "+").unwrap(), "a+b+c");
}

#[test]
fn replace_replaces_the_first_match_only() {
    assert_eq!(replace("a-b-c", "-", "+").unwrap(), "a+b-c");
}

#[test]
fn replacement_expands_group_references() {
    assert_eq!(replace_all("john smith", r"(\w+) (\w+)", "$2 $1").unwrap(), "smith john");
}

#[test]
fn replace_without_match_returns_input() {
    assert_eq!(replace("abc", "x", "y").unwrap(), "abc");
}

#[test]
fn compile_error_carries_the_regex_error_text() {
    let expected = format!(
        "Could not compile regex pattern: {}",
        fancy_regex::Regex::new("(unclosed").unwrap_err()
    );
    match rmatch("abc", "(unclosed") {
        Err(RegexError::Compile { message }) => assert_eq!(message, expected),
        other => panic!("expected a compile error, got {other:?}"),
    }
}
