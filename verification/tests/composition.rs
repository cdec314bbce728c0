use bytecontrol::composition::{compose_rules, CompositeRule, CompositionKind};
use bytecontrol::condition::{condition, ConditionalRule};
use bytecontrol::rule::Rule;
use bytecontrol::rules::string::{length, StringCheck};

fn test_rule_contains() -> ConditionalRule<String, StringCheck> {
    condition(
        StringCheck::Contains { needle: String::from("test") },
        String::from("test contains"),
    )
}

fn test_rule_starts_with() -> ConditionalRule<String, StringCheck> {
    condition(
        StringCheck::StartsWith { prefix: String::from("test") },
        String::from("test starts with"),
    )
}

#[test]
fn test_composition_all() {
    let rule1 = test_rule_contains();
    let rule2 = test_rule_starts_with();

    let composite = compose_rules()
        .kind(CompositionKind::All)
        .rule(rule1)
        .rule(rule2)
        .compose();

    assert!(composite.apply(&String::from("test")).is_ok());
    assert!(composite.apply(&String::from("fail_test")).is_err());
}

#[test]
fn test_composition_any() {
    let rule1 = test_rule_contains();
    let rule2 = test_rule_starts_with();

    let composite = compose_rules()
        .kind(CompositionKind::Any)
        .rule(rule1)
        .rule(rule2)
        .compose();

    assert!(composite.apply(&String::from("test")).is_ok());
    assert!(composite.apply(&String::from("fail_test")).is_ok());
    assert!(composite.apply(&String::from("fail")).is_err());
}

#[test]
fn test_custom_message() {
    let rule1 = test_rule_contains();
    let rule2 = test_rule_starts_with();

    let composite = compose_rules()
        .kind(CompositionKind::All)
        .rule(rule1)
        .rule(rule2)
        .message(String::from("test message"))
        .compose();

    let error = composite.apply(&String::from("fail_test")).unwrap_err();

    assert_eq!(error.messages.first().unwrap(), "test message");
}

#[test]
fn test_provided_messages() {
    let rule1 = test_rule_contains();
    let rule2 = test_rule_starts_with();

    let composite = compose_rules()
        .kind(CompositionKind::All)
        .rule(rule1)
        .rule(rule2)
        .compose();

    let error_all = composite.apply(&String::from("fail")).unwrap_err();

    assert!(error_all.messages.contains(&String::from("test contains")));
    assert!(error_all.messages.contains(&String::from("test starts with")));

    let error_starts_with = composite.apply(&String::from("fail_test")).unwrap_err();

    assert!(error_starts_with.messages.contains(&String::from("test starts with")));
}

#[test]
fn test_failing_children_messages_in_order() {
    let composite = compose_rules()
        .kind(CompositionKind::All)
        .rule(test_rule_contains())
        .rule(test_rule_starts_with())
        .compose();

    let error_all = composite.apply(&String::from("fail")).unwrap_err();
    assert_eq!(
        error_all.messages,
        vec![String::from("test contains"), String::from("test starts with")]
    );

    let error_one = composite.apply(&String::from("fail_test")).unwrap_err();
    assert_eq!(error_one.messages, vec![String::from("test starts with")]);
}

#[test]
fn test_override_message_is_the_only_message() {
    let composite = compose_rules()
        .kind(CompositionKind::All)
        .rule(test_rule_contains())
        .rule(test_rule_starts_with())
        .message(String::from("test message"))
        .compose();

    let error = composite.apply(&String::from("no match at all")).unwrap_err();
    assert_eq!(error.messages, vec![String::from("test message")]);

    let any_composite = compose_rules()
        .kind(CompositionKind::Any)
        .rule(test_rule_contains())
        .rule(test_rule_starts_with())
        .message(String::from("test message"))
        .compose();

    let any_error = any_composite.apply(&String::from("no match at all")).unwrap_err();
    assert_eq!(any_error.messages, vec![String::from("test message")]);
}

#[test]
fn test_vacuous_composite() {
    let all: CompositeRule<String, ConditionalRule<String, StringCheck>> =
        compose_rules().kind(CompositionKind::All).compose();
    assert!(all.apply(&String::from("anything")).is_ok());

    let any: CompositeRule<String, ConditionalRule<String, StringCheck>> =
        compose_rules().kind(CompositionKind::Any).compose();
    assert!(any.apply(&String::from("anything")).is_err());
}

#[test]
fn test_idempotent_evaluation() {
    let composite = compose_rules()
        .kind(CompositionKind::All)
        .rule(test_rule_contains())
        .rule(test_rule_starts_with())
        .compose();

    let value = String::from("fail");
    let first = composite.apply(&value);
    let second = composite.apply(&value);
    assert_eq!(first.is_ok(), second.is_ok());
    assert_eq!(first.unwrap_err().messages, second.unwrap_err().messages);

    let passing = String::from("test");
    assert!(composite.apply(&passing).is_ok());
    assert!(composite.apply(&passing).is_ok());
}

#[test]
fn test_composer_reset_after_compose() {
    let mut composer = compose_rules();
    composer.rule(test_rule_contains());
    composer.message(String::from("first message"));
    let first = composer.compose();

    composer.rule(test_rule_starts_with());
    let second = composer.compose();

    // The first composite keeps its one rule and its override message; the
    // second holds only the rule appended after the reset, and no override.
    assert!(first.apply(&String::from("fail_test")).is_ok());
    let first_error = first.apply(&String::from("no match")).unwrap_err();
    assert_eq!(first_error.messages, vec![String::from("first message")]);

    let error = second.apply(&String::from("fail_test")).unwrap_err();
    assert_eq!(error.messages, vec![String::from("test starts with")]);

    // The kind resets to All as well: a fresh empty composite passes.
    composer.kind(CompositionKind::Any);
    composer.compose();
    let third = composer.compose();
    assert!(third.apply(&String::from("anything")).is_ok());
}

#[test]
fn test_mixed_all_composite_passes() {
    let composite = compose_rules()
        .kind(CompositionKind::All)
        .rule(length(2, 32))
        .rule(condition(
            StringCheck::StartsWith { prefix: String::from("Mi") },
            String::from("bad prefix"),
        ))
        .compose();

    assert!(composite.apply(&String::from("Mike")).is_ok());
}
