use semverguard::classification::{
    classify_engine_error, classify_engine_error_detailed, classify_output,
    classify_output_detailed, detect_baseline_error_from_message, extract_detail,
    extract_revision, ClassificationResult,
};
use semverguard::error::SemverguardError;
use semverguard::model::{BaselineErrorCause, FailureKind, RequiredBump, SemverCheckOutput};

fn output(
    exit_code: Option<i32>,
    stdout: &str,
    stderr: &str,
    bump: Option<RequiredBump>,
) -> SemverCheckOutput {
    SemverCheckOutput {
        exit_code,
        success: exit_code == Some(0),
        stdout: stdout.to_string(),
        stderr: stderr.to_string(),
        required_bump: bump,
    }
}

fn assert_baseline_cause_variant(actual: &Option<BaselineErrorCause>, expected: BaselineErrorCause) {
    assert_eq!(
        actual.as_ref().map(std::mem::discriminant),
        Some(std::mem::discriminant(&expected))
    );
}

#[test]
fn test_classify_output_semver_violation_exit_code() {
    let out = output(Some(1), "", "", None);
    assert_eq!(classify_output(&out), FailureKind::SemverViolation);
}

#[test]
fn test_classify_output_semver_violation_required_bump() {
    let out = output(Some(2), "", "", Some(RequiredBump::Major));
    assert_eq!(classify_output(&out), FailureKind::SemverViolation);
}

#[test]
fn test_classify_output_unknown_exit_code() {
    let out = output(Some(3), "", "", None);
    assert_eq!(classify_output(&out), FailureKind::Unknown);
}

#[test]
fn test_classify_output_unknown_exit_code_with_baseline_error() {
    let out = output(Some(3), "baseline not found", "", None);
    assert_eq!(classify_output(&out), FailureKind::BaselineError);
}

#[test]
fn test_classify_engine_error_simple() {
    let err = SemverguardError::Engine("engine failed".to_string());
    assert_eq!(classify_engine_error(&err), FailureKind::ToolError);
}

#[test]
fn test_classify_engine_error_detailed_baseline() {
    let err = SemverguardError::Engine("error: unknown revision 'origin/main'".to_string());
    let result = classify_engine_error_detailed(&err, None);
    assert_eq!(result.kind, FailureKind::BaselineError);
    assert_eq!(
        result.baseline_cause,
        Some(BaselineErrorCause::RevisionNotFound { rev: "origin/main".to_string() })
    );
}

#[test]
fn test_classify_engine_error_detailed_baseline_without_cause() {
    let err = SemverguardError::InvalidConfig("baseline status ok".to_string());
    let result = classify_engine_error_detailed(&err, None);
    assert_eq!(result.kind, FailureKind::ToolError);
    assert!(result.baseline_cause.is_none());
}

#[test]
fn test_detect_baseline_error_generic_other() {
    let cause = detect_baseline_error_from_message("baseline failed for unknown reason", None);
    assert_baseline_cause_variant(&cause, BaselineErrorCause::Other { message: String::new() });
}

#[test]
fn test_detect_baseline_error_revision_not_found_phrase() {
    let cause = detect_baseline_error_from_message("revision not found in baseline", None);
    assert_baseline_cause_variant(&cause, BaselineErrorCause::RevisionNotFound { rev: String::new() });
}

#[test]
fn test_detect_baseline_error_crate_absent_without_name() {
    let cause = detect_baseline_error_from_message("crate missing in baseline", None);
    assert_eq!(
        cause,
        Some(BaselineErrorCause::CrateAbsentFromBaseline { crate_name: "unknown".to_string() })
    );
}

#[test]
fn test_detect_baseline_error_rustdoc_error_only() {
    let cause = detect_baseline_error_from_message("baseline rustdoc error output", None);
    assert_baseline_cause_variant(&cause, BaselineErrorCause::RustdocGenerationFailed { detail: None });
}

#[test]
fn test_detect_baseline_error_not_published_without_name() {
    let cause = detect_baseline_error_from_message("crate not published to crates.io", None);
    assert_eq!(
        cause,
        Some(BaselineErrorCause::NotPublished { crate_name: "unknown".to_string(), version: None })
    );
}

#[test]
fn test_detect_baseline_error_none() {
    let cause = detect_baseline_error_from_message("all good here", None);
    assert!(cause.is_none());
}

#[test]
fn test_detect_baseline_error_baseline_without_failure_returns_none() {
    let cause = detect_baseline_error_from_message("baseline status ok", None);
    assert!(cause.is_none());
}

#[test]
fn test_extract_revision_single_and_double_quotes() {
    let single = extract_revision("error: unknown revision 'origin/main'");
    assert_eq!(single, Some("origin/main".to_string()));
    let double = extract_revision("error: unknown revision \"v1.0.0\"");
    assert_eq!(double, Some("v1.0.0".to_string()));
}

#[test]
fn test_extract_revision_empty_or_too_long_returns_none() {
    let empty = extract_revision("error: unknown revision ''");
    assert!(empty.is_none());
    let long = "a".repeat(120);
    let long_msg = format!("error: unknown revision \"{}\"", long);
    assert!(extract_revision(&long_msg).is_none());
}

#[test]
fn test_extract_revision_missing_closing_quotes_returns_none() {
    let missing_single = extract_revision("error: unknown revision 'origin/main");
    assert!(missing_single.is_none());
    let missing_double = extract_revision("error: unknown revision \"origin/main");
    assert!(missing_double.is_none());
}

#[test]
fn test_extract_detail_snippet() {
    let detail = extract_detail("rustdoc: failed to generate output", &["rustdoc"]);
    assert!(detail.is_some());
}

#[test]
fn test_extract_detail_none() {
    let detail = extract_detail("unrelated text", &["rustdoc"]);
    assert!(detail.is_none());
}

#[test]
fn test_extract_detail_keyword_only_returns_none() {
    let detail = extract_detail("rustdoc", &["rustdoc"]);
    assert!(detail.is_none());
}

#[test]
fn test_classify_output_tool_error_exit_code() {
    let out = output(Some(2), "some error", "", None);
    assert_eq!(classify_output(&out), FailureKind::ToolError);
}

#[test]
fn test_classify_output_baseline_error() {
    let out = output(Some(2), "baseline not found", "unknown revision", None);
    assert_eq!(classify_output(&out), FailureKind::BaselineError);
}

#[test]
fn test_classify_detailed_shallow_clone() {
    let out = output(Some(2), "", "error: shallow clone cannot resolve baseline revision", None);
    let result = classify_output_detailed(&out, Some("my-crate"));
    assert_eq!(result.kind, FailureKind::BaselineError);
    assert_baseline_cause_variant(&result.baseline_cause, BaselineErrorCause::ShallowClone { detail: None });
}

#[test]
fn test_classify_detailed_revision_not_found() {
    let out = output(Some(2), "", "error: unknown revision 'origin/missing'", None);
    let result = classify_output_detailed(&out, None);
    assert_eq!(result.kind, FailureKind::BaselineError);
    assert_eq!(
        result.baseline_cause,
        Some(BaselineErrorCause::RevisionNotFound { rev: "origin/missing".to_string() })
    );
}

#[test]
fn test_classify_detailed_crate_not_in_baseline() {
    let out = output(Some(2), "crate 'new-feature' not found in baseline", "", None);
    let result = classify_output_detailed(&out, Some("new-feature"));
    assert_eq!(result.kind, FailureKind::BaselineError);
    assert_eq!(
        result.baseline_cause,
        Some(BaselineErrorCause::CrateAbsentFromBaseline { crate_name: "new-feature".to_string() })
    );
}

#[test]
fn test_classify_detailed_rustdoc_failure() {
    let out = output(
        Some(2),
        "",
        "error: failed to generate baseline rustdoc: nightly toolchain required",
        None,
    );
    let result = classify_output_detailed(&out, None);
    assert_eq!(result.kind, FailureKind::BaselineError);
    assert_baseline_cause_variant(
        &result.baseline_cause,
        BaselineErrorCause::RustdocGenerationFailed { detail: None },
    );
}

#[test]
fn test_classify_detailed_not_published() {
    let out = output(Some(2), "", "error: crate has never been published to crates.io", None);
    let result = classify_output_detailed(&out, Some("my-internal-crate"));
    assert_eq!(result.kind, FailureKind::BaselineError);
    assert_eq!(
        result.baseline_cause,
        Some(BaselineErrorCause::NotPublished {
            crate_name: "my-internal-crate".to_string(),
            version: None,
        })
    );
}

#[test]
fn test_classify_detailed_merge_base_not_found() {
    let out = output(Some(2), "", "error: merge-base not found", None);
    let result = classify_output_detailed(&out, None);
    assert_eq!(result.kind, FailureKind::BaselineError);
    assert_baseline_cause_variant(
        &result.baseline_cause,
        BaselineErrorCause::MergeBaseNotFound { base: String::new(), head: String::new() },
    );
}

#[test]
fn test_classify_detailed_generic_baseline_error() {
    let out = output(Some(2), "", "error: baseline failed for unknown reason", None);
    let result = classify_output_detailed(&out, None);
    assert_eq!(result.kind, FailureKind::BaselineError);
    assert_baseline_cause_variant(&result.baseline_cause, BaselineErrorCause::Other { message: String::new() });
}

#[test]
fn test_classify_detailed_semver_violation() {
    let out = output(Some(1), "breaking changes detected", "", None);
    let result = classify_output_detailed(&out, Some("my-crate"));
    assert_eq!(result.kind, FailureKind::SemverViolation);
    assert!(result.baseline_cause.is_none());
}

#[test]
fn test_classify_detailed_tool_error() {
    let out = output(Some(2), "", "cargo-semver-checks not found", None);
    let result = classify_output_detailed(&out, None);
    assert_eq!(result.kind, FailureKind::ToolError);
    assert!(result.baseline_cause.is_none());
}

#[test]
fn test_classification_result_simple() {
    let result = ClassificationResult::simple(FailureKind::SemverViolation);
    assert_eq!(result.kind, FailureKind::SemverViolation);
    assert!(result.baseline_cause.is_none());
}

#[test]
fn test_classification_result_baseline() {
    let result = ClassificationResult::baseline(BaselineErrorCause::ShallowClone {
        detail: Some("test".to_string()),
    });
    assert_eq!(result.kind, FailureKind::BaselineError);
    assert!(result.baseline_cause.is_some());
}
