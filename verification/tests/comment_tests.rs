use semverguard::comment::render_comment;
use semverguard::model::{
    BaselineConfig, FailureKind, FindingLevel, PackageReport, PackageStatus, RequiredBump,
    RunReport, Summary, VerdictStatus,
};
use semverguard::receipt::{
    ArtifactIndex, Finding, RawLogRef, RunInfo, SemverguardData, SensorReportV1, ToolInfo, Verdict,
};

fn data(report: RunReport) -> SemverguardData {
    SemverguardData { report, findings_total: None, findings_emitted: None, summary: None }
}


fn minimal_receipt() -> SensorReportV1 {
    SensorReportV1 {
        schema: "sensor.report.v1".to_string(),
        tool: ToolInfo {
            name: "semverguard".to_string(),
            version: "0.1.0".to_string(),
            repository_url: None,
        },
        run: RunInfo {
            started_at: "2024-01-15T10:00:00Z".to_string(),
            finished_at: "2024-01-15T10:01:00Z".to_string(),
            duration_ms: 60000,
            workspace_root: "/workspace".to_string(),
            baseline: BaselineConfig::default(),
            capabilities: None,
        },
        verdict: Verdict {
            status: VerdictStatus::Pass,
            reasons: vec![],
        },
        findings: vec![],
        data: None,
        artifacts: ArtifactIndex {
            report_json: "report.json".to_string(),
            comment_md: "comment.md".to_string(),
            sarif_json: None,
            raw_logs: vec![],
        },
    }
}

fn minimal_report(packages: Vec<PackageReport>) -> RunReport {
    let passed = packages
        .iter()
        .filter(|p| p.status == PackageStatus::Passed)
        .count();
    let failed = packages
        .iter()
        .filter(|p| p.status == PackageStatus::Failed)
        .count();
    let skipped = packages
        .iter()
        .filter(|p| p.status == PackageStatus::Skipped)
        .count();

    RunReport {
        semverguard_version: "0.1.0".to_string(),
        started_at: "2024-01-15T10:00:00Z".to_string(),
        finished_at: "2024-01-15T10:01:00Z".to_string(),
        workspace_root: "/workspace".to_string(),
        packages,
        summary: Summary {
            total: passed + failed + skipped,
            passed,
            failed,
            skipped,
        },
    }
}

fn make_package(name: &str, version: &str, status: PackageStatus) -> PackageReport {
    PackageReport {
        name: name.to_string(),
        version: version.to_string(),
        manifest_path: format!("/workspace/{}/Cargo.toml", name),
        status,
        skip_reason: if status == PackageStatus::Skipped {
            Some("filtered by glob".to_string())
        } else {
            None
        },
        duration_ms: 100,
        command: vec!["cargo".to_string()],
        engine: None,
        inferred_required_bump: if status == PackageStatus::Failed {
            Some(RequiredBump::Major)
        } else {
            None
        },
        failure_kind: if status == PackageStatus::Failed {
            Some(FailureKind::SemverViolation)
        } else {
            None
        },
        baseline_error: None,
    }
}

// =========================================================================
// Empty/All-passed scenarios
// =========================================================================

#[test]
fn test_empty_findings_all_passed() {
    let packages = vec![
        make_package("lib-a", "1.0.0", PackageStatus::Passed),
        make_package("lib-b", "2.0.0", PackageStatus::Passed),
    ];
    let mut receipt = minimal_receipt();
    receipt.data = Some(data(minimal_report(packages)));

    let comment = render_comment(&receipt);

    assert!(comment.contains("## Semverguard: pass"));
    assert!(comment.contains("passed=2"));
    assert!(comment.contains("failed=0"));
    assert!(comment.contains("### Failed packages"));
    assert!(comment.contains("- (none)")); // No failures
}

#[test]
fn test_no_data_available() {
    let receipt = minimal_receipt();

    let comment = render_comment(&receipt);

    assert!(comment.contains("## Semverguard: pass"));
    assert!(comment.contains("(no report available)"));
}

// =========================================================================
// Long package names
// =========================================================================

#[test]
fn test_very_long_package_name() {
    let long_name = "a".repeat(150); // Very long package name
    let packages = vec![make_package(&long_name, "1.0.0", PackageStatus::Failed)];
    let mut receipt = minimal_receipt();
    receipt.verdict.status = VerdictStatus::Fail;
    receipt.data = Some(data(minimal_report(packages)));

    let comment = render_comment(&receipt);

    // Should contain the full long name
    assert!(comment.contains(&long_name));
    assert!(comment.contains("## Semverguard: fail"));
}

// =========================================================================
// Markdown special characters
// =========================================================================

#[test]
fn test_markdown_special_characters_in_package_name() {
    // Package names with special markdown characters
    let packages = vec![
        make_package("my_lib-core", "1.0.0", PackageStatus::Passed),
        make_package("pkg-with-dashes", "1.0.0", PackageStatus::Skipped),
    ];
    let mut receipt = minimal_receipt();
    receipt.data = Some(data(minimal_report(packages)));

    let comment = render_comment(&receipt);

    assert!(comment.contains("my_lib-core"));
    assert!(comment.contains("pkg-with-dashes"));
}

#[test]
fn passed_packages_have_their_own_section() {
    let packages = vec![
        make_package("lib-b", "2.0.0", PackageStatus::Passed),
        make_package("lib-a", "1.0.0", PackageStatus::Passed),
        make_package("lib-c", "0.1.0", PackageStatus::Failed),
    ];
    let mut receipt = minimal_receipt();
    receipt.data = Some(data(minimal_report(packages)));

    let comment = render_comment(&receipt);

    assert!(comment.contains("### Passed packages\n- lib-a 1.0.0\n- lib-b 2.0.0\n\n### Warnings / tool errors"));
}

#[test]
fn test_unicode_in_skip_reason() {
    let mut package = make_package("lib", "1.0.0", PackageStatus::Skipped);
    package.skip_reason = Some("скип причина 跳过原因".to_string());

    let packages = vec![package];
    let mut receipt = minimal_receipt();
    receipt.data = Some(data(minimal_report(packages)));

    let comment = render_comment(&receipt);

    assert!(comment.contains("скип причина 跳过原因"));
}

#[test]
fn test_unicode_in_findings() {
    let mut receipt = minimal_receipt();
    receipt.findings = vec![Finding {
        check_id: "tool".to_string(),
        code: "warning".to_string(),
        level: FindingLevel::Warning,
        message: "警告: 需要版本升级".to_string(),
        location: None,
        data: None,
        fingerprint: None,
            waived: None,
    }];

    let comment = render_comment(&receipt);

    assert!(comment.contains("警告: 需要版本升级"));
}

// =========================================================================
// All packages skipped
// =========================================================================

#[test]
fn test_all_packages_skipped() {
    let packages = vec![
        make_package("lib-a", "1.0.0", PackageStatus::Skipped),
        make_package("lib-b", "2.0.0", PackageStatus::Skipped),
        make_package("lib-c", "0.1.0", PackageStatus::Skipped),
    ];
    let mut receipt = minimal_receipt();
    receipt.verdict.status = VerdictStatus::Skip;
    receipt.data = Some(data(minimal_report(packages)));

    let comment = render_comment(&receipt);

    assert!(comment.contains("## Semverguard: skip"));
    assert!(comment.contains("skipped=3"));
    assert!(comment.contains("### Skipped packages"));
    assert!(comment.contains("lib-a"));
    assert!(comment.contains("lib-b"));
    assert!(comment.contains("lib-c"));
}

// =========================================================================
// Mixed status packages
// =========================================================================

#[test]
fn test_mixed_status_packages() {
    let packages = vec![
        make_package("lib-a", "1.0.0", PackageStatus::Passed),
        make_package("lib-b", "2.0.0", PackageStatus::Failed),
        make_package("lib-c", "0.1.0", PackageStatus::Skipped),
    ];
    let mut receipt = minimal_receipt();
    receipt.verdict.status = VerdictStatus::Fail;
    receipt.data = Some(data(minimal_report(packages)));

    let comment = render_comment(&receipt);

    assert!(comment.contains("passed=1"));
    assert!(comment.contains("failed=1"));
    assert!(comment.contains("skipped=1"));
    assert!(comment.contains("### Failed packages"));
    assert!(comment.contains("lib-b 2.0.0"));
    assert!(comment.contains("### Skipped packages"));
    assert!(comment.contains("lib-c 0.1.0"));
}

// =========================================================================
// Raw log lookup
// =========================================================================

#[test]
fn test_raw_logs_included_in_failed_packages() {
    let packages = vec![make_package("lib-a", "1.0.0", PackageStatus::Failed)];
    let mut receipt = minimal_receipt();
    receipt.verdict.status = VerdictStatus::Fail;
    receipt.data = Some(data(minimal_report(packages)));
    receipt.artifacts.raw_logs = vec![RawLogRef {
        package: "lib-a".to_string(),
        version: "1.0.0".to_string(),
        stdout: None,
        stderr: Some("logs/lib-a.stderr.log".to_string()),
    }];

    let comment = render_comment(&receipt);

    assert!(comment.contains("(log: logs/lib-a.stderr.log)"));
}

// =========================================================================
// Warnings section
// =========================================================================

#[test]
fn test_warnings_in_comment() {
    let mut receipt = minimal_receipt();
    receipt.findings = vec![
        Finding {
            check_id: "tool".to_string(),
            code: "missing-baseline".to_string(),
            level: FindingLevel::Warning,
            message: "Could not resolve baseline".to_string(),
            location: None,
            data: None,
            fingerprint: None,
            waived: None,
        },
        Finding {
            check_id: "tool".to_string(),
            code: "git-not-found".to_string(),
            level: FindingLevel::Warning,
            message: "Git binary not found".to_string(),
            location: None,
            data: None,
            fingerprint: None,
            waived: None,
        },
    ];

    let comment = render_comment(&receipt);

    assert!(comment.contains("### Warnings / tool errors"));
    assert!(comment.contains("Could not resolve baseline"));
    assert!(comment.contains("Git binary not found"));
}

#[test]
fn test_info_findings_not_in_warnings() {
    let mut receipt = minimal_receipt();
    receipt.findings = vec![Finding {
        check_id: "info".to_string(),
        code: "informational".to_string(),
        level: FindingLevel::Info,
        message: "This is just informational".to_string(),
        location: None,
        data: None,
        fingerprint: None,
            waived: None,
    }];

    let comment = render_comment(&receipt);

    // Info level should not appear in warnings section
    assert!(!comment.contains("This is just informational"));
}

// =========================================================================
// Verdict status rendering
// =========================================================================

#[test]
fn test_verdict_pass() {
    let receipt = minimal_receipt();
    let comment = render_comment(&receipt);
    assert!(comment.contains("## Semverguard: pass"));
}

#[test]
fn test_verdict_warn() {
    let mut receipt = minimal_receipt();
    receipt.verdict.status = VerdictStatus::Warn;
    let comment = render_comment(&receipt);
    assert!(comment.contains("## Semverguard: warn"));
}

#[test]
fn test_verdict_fail() {
    let mut receipt = minimal_receipt();
    receipt.verdict.status = VerdictStatus::Fail;
    let comment = render_comment(&receipt);
    assert!(comment.contains("## Semverguard: fail"));
}

#[test]
fn test_verdict_skip() {
    let mut receipt = minimal_receipt();
    receipt.verdict.status = VerdictStatus::Skip;
    let comment = render_comment(&receipt);
    assert!(comment.contains("## Semverguard: skip"));
}

// =========================================================================
// Sorting behavior
// =========================================================================

#[test]
fn test_packages_sorted_alphabetically() {
    let packages = vec![
        make_package("zebra", "1.0.0", PackageStatus::Failed),
        make_package("alpha", "1.0.0", PackageStatus::Failed),
        make_package("beta", "1.0.0", PackageStatus::Failed),
    ];
    let mut receipt = minimal_receipt();
    receipt.verdict.status = VerdictStatus::Fail;
    receipt.data = Some(data(minimal_report(packages)));

    let comment = render_comment(&receipt);

    let alpha_pos = comment.find("alpha").unwrap();
    let beta_pos = comment.find("beta").unwrap();
    let zebra_pos = comment.find("zebra").unwrap();

    assert!(
        alpha_pos < beta_pos,
        "alpha should come before beta in sorted output"
    );
    assert!(
        beta_pos < zebra_pos,
        "beta should come before zebra in sorted output"
    );
}

