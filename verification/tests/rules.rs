use bytecontrol::rule::length::{length as length_rule, LengthRule};
use bytecontrol::rule::pattern::PatternRule;
use bytecontrol::rule::Rule;
use bytecontrol::rules::bool::{is_false, is_true};
use bytecontrol::rules::string::{length, pattern, starts_with};

#[test]
fn test_is_true() {
    assert!(is_true().apply(&true).is_ok());
    assert!(is_true().apply(&false).is_err());
}

#[test]
fn test_is_false() {
    assert!(is_false().apply(&false).is_ok());
    assert!(is_false().apply(&true).is_err());
    assert_eq!(
        is_false().apply(&true).unwrap_err().messages,
        vec![String::from("value is not false")]
    );
}

#[test]
fn test_length_out_of_bounds() {
    let rule = length(10, 20);
    let error = rule.apply(&String::from("username")).unwrap_err();
    assert_eq!(error.messages, vec![String::from("value length is out of bounds")]);
}

#[test]
fn test_length_bounds_are_inclusive() {
    let rule = length(8, 8);
    assert!(rule.apply(&String::from("username")).is_ok());
    assert!(rule.apply(&String::from("usernames")).is_err());
    assert!(rule.apply(&String::from("user")).is_err());
}

#[test]
fn test_length_rule_struct() {
    let rule = length_rule(10, 20);
    let error = rule.apply(&String::from("username")).unwrap_err();
    assert_eq!(error.messages, vec![String::from("value length is out of bounds")]);
    assert_eq!(rule.error_message(), Some(String::from("value length is out of bounds")));

    assert!(LengthRule::new(1, 8).apply(&String::from("username")).is_ok());
    assert!(LengthRule::default().apply(&String::from("")).is_ok());
}

#[test]
fn test_length_counts_characters() {
    // Four characters, five bytes: the bounds are measured in characters.
    let rule = length(4, 4);
    assert!(rule.apply(&String::from("caf\u{e9}s")).is_err());
    assert!(rule.apply(&String::from("caf\u{e9}")).is_ok());
}

#[test]
fn test_starts_with_rule() {
    let rule = starts_with(String::from("user"));
    assert!(rule.apply(&String::from("username")).is_ok());
    let error = rule.apply(&String::from("name")).unwrap_err();
    assert_eq!(error.messages, vec![String::from("value doesn't have prefix")]);
}

#[test]
fn test_pattern_rule_from_factory() {
    let rule = pattern(String::from("^test"));
    assert!(rule.apply(&String::from("testing")).is_ok());
    let error = rule.apply(&String::from("a test")).unwrap_err();
    assert_eq!(error.messages, vec![String::from("value doesn't match pattern")]);
}

#[test]
fn test_pattern_rule_struct() {
    let rule = PatternRule { pattern: String::from("[0-9]{3}") };
    assert!(rule.apply(&String::from("abc123")).is_ok());
    assert!(rule.apply(&String::from("abc12")).is_err());
    assert_eq!(rule.error_message(), Some(String::from("value doesn't match pattern")));
}
