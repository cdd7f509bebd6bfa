use semverguard::sarif::{
    generate_rules, normalize_uri_str, SarifLevel, SarifMessage, SarifRule, RULE_BASELINE_ERROR,
    RULE_SEMVER_BREAKING, RULE_SEMVER_MAJOR_REQUIRED, RULE_SEMVER_MINOR_REQUIRED,
    RULE_SEMVER_PATCH_REQUIRED, RULE_TOOL_ERROR,
};

fn rule_level(rules: &[SarifRule], id: &str) -> SarifLevel {
    rules
        .iter()
        .find(|r| r.id == id)
        .unwrap()
        .default_configuration
        .as_ref()
        .unwrap()
        .level
}

#[test]
fn test_message_with_raw_log_ref() {
    let msg = SarifMessage::with_raw_log_ref("Test message", Some("path/to/log.txt"));
    assert!(msg.text.contains("Test message"));
    assert!(msg.text.contains("path/to/log.txt"));
    assert!(msg.text.contains("see raw log:"));

    let msg_no_log = SarifMessage::with_raw_log_ref("Test message", None);
    assert_eq!(msg_no_log.text, "Test message");
    assert!(!msg_no_log.text.contains("see raw log:"));
}

#[test]
fn test_sarif_rules_have_correct_severity() {
    let rules = generate_rules();
    assert!(matches!(rule_level(&rules, RULE_SEMVER_BREAKING), SarifLevel::Error));
    assert!(matches!(rule_level(&rules, RULE_SEMVER_MAJOR_REQUIRED), SarifLevel::Error));
    assert!(matches!(rule_level(&rules, RULE_SEMVER_MINOR_REQUIRED), SarifLevel::Warning));
    assert!(matches!(rule_level(&rules, RULE_SEMVER_PATCH_REQUIRED), SarifLevel::Note));
    assert!(matches!(rule_level(&rules, RULE_TOOL_ERROR), SarifLevel::Error));
    assert!(matches!(rule_level(&rules, RULE_BASELINE_ERROR), SarifLevel::Warning));
}

#[test]
fn test_normalize_uri_str() {
    assert_eq!(normalize_uri_str("foo\\bar\\baz"), "foo/bar/baz");
    assert_eq!(normalize_uri_str("foo/bar/baz"), "foo/bar/baz");
    assert_eq!(normalize_uri_str("C:\\Users\\dev"), "C:/Users/dev");
}

#[test]
fn test_message_with_raw_log_ref_exact_text() {
    let msg = SarifMessage::with_raw_log_ref("Boom", Some("logs/a.txt"));
    assert_eq!(msg.text, "Boom (see raw log: logs/a.txt)");
}

#[test]
fn test_generate_rules_has_six_rules() {
    assert_eq!(generate_rules().len(), 6);
}
