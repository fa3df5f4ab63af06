use commitlint::message::Message;
use commitlint::rule::scope_empty::ScopeEmpty;
use commitlint::rule::{Level, Rule};

fn message_with_scope(scope: Option<&str>) -> Message {
    Message {
        body: None,
        description: None,
        footers: None,
        commit_type: Some("feat".to_string()),
        raw: "feat: broadcast $destroy event on scope destruction".to_string(),
        scope: scope.map(|s| s.to_string()),
    }
}

#[test]
fn empty_string_scope_counts_as_present() {
    let rule = ScopeEmpty::default();
    let message = message_with_scope(Some(""));

    assert!(rule.validate(&message).is_none());
}

#[test]
fn unconfigured_rule_resolves_to_error() {
    let rule = ScopeEmpty { level: None };
    let message = message_with_scope(None);

    assert_eq!(rule.effective_level(), Level::Error);
    let violation = rule.validate(&message).unwrap();
    assert_eq!(violation.level, Level::Error);
    assert_eq!(violation.message, "scope is empty".to_string());
}

#[test]
fn configured_override_carries_into_violation() {
    let message = message_with_scope(None);

    let warning_rule = ScopeEmpty { level: Some(Level::Warning) };
    assert_eq!(warning_rule.effective_level(), Level::Warning);
    assert_eq!(warning_rule.validate(&message).unwrap().level, Level::Warning);

    let info_rule = ScopeEmpty { level: Some(Level::Info) };
    assert_eq!(info_rule.effective_level(), Level::Info);
    assert_eq!(info_rule.validate(&message).unwrap().level, Level::Info);
}

#[test]
fn default_matches_explicit_error_configuration() {
    let defaulted = ScopeEmpty::default();
    let explicit = ScopeEmpty { level: Some(Level::Error) };

    let firing = message_with_scope(None);
    let d = defaulted.validate(&firing).unwrap();
    let e = explicit.validate(&firing).unwrap();
    assert_eq!(d.level, e.level);
    assert_eq!(d.message, e.message);

    let quiet = message_with_scope(Some("api"));
    assert!(defaulted.validate(&quiet).is_none());
    assert!(explicit.validate(&quiet).is_none());
}

#[test]
fn message_text_is_constant() {
    let rule = ScopeEmpty::default();
    let with_scope = message_with_scope(Some("api"));
    let without_scope = message_with_scope(None);

    assert_eq!(rule.message(&with_scope), "scope is empty".to_string());
    assert_eq!(rule.message(&without_scope), "scope is empty".to_string());
}

#[test]
fn validate_is_idempotent() {
    let rule = ScopeEmpty { level: Some(Level::Warning) };

    let firing = message_with_scope(None);
    let first = rule.validate(&firing).unwrap();
    let second = rule.validate(&firing).unwrap();
    assert_eq!(first.level, second.level);
    assert_eq!(first.message, second.message);

    let quiet = message_with_scope(Some("parser"));
    assert_eq!(
        rule.validate(&quiet).is_none(),
        rule.validate(&quiet).is_none()
    );
}

#[test]
fn name_and_default_level_are_stable() {
    assert_eq!(ScopeEmpty::name(), "scope-empty");
    assert_eq!(ScopeEmpty::default_level(), Level::Error);
}

#[test]
fn levels_are_ordered() {
    assert!(Level::Info < Level::Warning);
    assert!(Level::Warning < Level::Error);
}
