use semverguard::promote::{promote_baseline_text, PromoteError};

#[test]
fn promote_text_dry_run_reports_previous_rev() {
    let content = "\n[baseline]\nkind = \"git\"\nrev = \"abc123\"\n";
    let (result, text) = promote_baseline_text(content, "def456", false).unwrap();
    assert_eq!(result.previous, Some("abc123".to_string()));
    assert_eq!(result.new_value, "def456");
    assert_eq!(result.config_key, "baseline.rev");
    assert!(!result.written);
    assert!(text.contains("rev = \"def456\""));
    assert!(!text.contains("abc123"));
}

#[test]
fn promote_text_keeps_comments_and_other_sections() {
    let content = "# My config\n[baseline]\nkind = \"git\"\nrev = \"abc123\"\n\n[scope]\nmode = \"changed\"\n";
    let (result, text) = promote_baseline_text(content, "def456", true).unwrap();
    assert!(result.written);
    assert!(text.contains("# My config"));
    assert!(text.contains("[scope]"));
    assert!(text.contains("mode = \"changed\""));
    assert!(text.contains("def456"));
    assert!(!text.contains("abc123"));
}

#[test]
fn promote_text_adds_missing_baseline_table() {
    let content = "\n[scope]\nmode = \"workspace\"\n";
    let (result, text) = promote_baseline_text(content, "newrev", true).unwrap();
    assert_eq!(result.previous, None);
    assert_eq!(result.new_value, "newrev");
    assert!(text.contains("[baseline]"));
    assert!(text.contains("kind = \"git\""));
    assert!(text.contains("rev = \"newrev\""));
    assert!(text.contains("[scope]"));
}

#[test]
fn promote_text_keeps_a_set_kind() {
    let content = "[baseline]\nkind = \"crates-io\"\n";
    let (result, text) = promote_baseline_text(content, "r1", false).unwrap();
    assert_eq!(result.previous, None);
    assert!(text.contains("kind = \"crates-io\""));
    assert!(!text.contains("kind = \"git\""));
    assert!(text.contains("rev = \"r1\""));
}

#[test]
fn promote_text_non_string_rev_has_no_previous() {
    let content = "[baseline]\nrev = 7\n";
    let (result, text) = promote_baseline_text(content, "r2", false).unwrap();
    assert_eq!(result.previous, None);
    assert!(text.contains("rev = \"r2\""));
    assert!(!text.contains("rev = 7"));
}

#[test]
fn promote_text_rejects_invalid_toml() {
    let err = promote_baseline_text("not = [valid", "def456", false).unwrap_err();
    assert!(matches!(err, PromoteError::Parse(_)));
    assert!(!err.message().is_empty());
}

#[test]
fn promote_text_rejects_baseline_that_is_not_a_table() {
    let err = promote_baseline_text("baseline = \"oops\"", "def456", false).unwrap_err();
    assert!(matches!(err, PromoteError::BaselineNotTable));
    assert_eq!(err.message(), "baseline is not a table");
}

#[test]
fn promote_text_rejects_inline_baseline_table() {
    let err = promote_baseline_text("baseline = { rev = \"a\" }", "b", false).unwrap_err();
    assert!(matches!(err, PromoteError::BaselineNotTable));
}
