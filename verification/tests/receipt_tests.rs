use semverguard::artifacts::{normalize_receipt_path, sanitize_filename_component};
use semverguard::receipt::CapabilityContext;
use std::path::Path;

use semverguard::assemble::{
    duration_ms_from_strings, build_receipt, build_receipt_with_capabilities, build_receipt_with_capabilities_versioned,
    build_summary_data, derive_verdict, exit_code_from_receipt,
};
use semverguard::artifacts::build_artifact_index;
use semverguard::comment::render_comment;
use semverguard::findings::{
    build_failure_message, build_findings, compute_fingerprint, compute_suggested_version,
    required_bump_str,
};
use semverguard::model::{
    BaselineConfig, BaselineErrorCause, BaselineKind, CapabilityStatus, FailureKind, FindingLevel,
    PackageReport, PackageStatus, RequiredBump, RunReport, SemverCheckOutput, Summary,
    VerdictStatus, WaiverEntry,
};
use semverguard::paths::resolve_artifacts_dir;
use semverguard::receipt::{
    Finding, ToolErrorFinding, Verdict, WaiverInfo, CAP_REASON_GIT_UNAVAILABLE,
    CAP_REASON_NOT_REQUIRED, CAP_REASON_RESOLUTION_FAILED, CAP_REASON_SHALLOW_CLONE,
    CHECK_BASELINE, CHECK_ENGINE, CHECK_SEMVER, CHECK_TOOL, CODE_ERROR, CODE_MISSING,
    CODE_UNKNOWN, CODE_VIOLATION, MAX_FINDINGS, REASON_ALL_PACKAGES_SKIPPED,
    REASON_BASELINE_UNAVAILABLE, REASON_ENGINE_ERROR, REASON_SEMVER_VIOLATION,
    REASON_TOOL_ERROR, REASON_TRUNCATED, REASON_WAIVED,
};
use semverguard::waivers::{apply_waivers, is_waiver_expired};

const TODAY: (i32, u8, u8) = (2024, 6, 1);

fn is_token_part(s: &str) -> bool {
    !s.is_empty() && s.chars().all(|c| c.is_ascii_lowercase() || c.is_ascii_digit() || c == '_')
}

/// `^[a-z0-9_]+(\.[a-z0-9_]+)*$`
fn is_code_token(s: &str) -> bool {
    s.split('.').all(is_token_part)
}

/// `^[a-z][a-z0-9_]*$`
fn is_reason_token(s: &str) -> bool {
    is_token_part(s) && s.chars().next().map_or(false, |c| c.is_ascii_lowercase())
}

fn finding_sort_key(f: &Finding) -> (u8, String, String, String, String, String) {
    let package = f.data.as_ref().map(|d| d.package.clone()).unwrap_or_default();
    (
        f.level.severity_rank(),
        package,
        f.check_id.clone(),
        f.code.clone(),
        f.fingerprint.clone().unwrap_or_default(),
        f.message.clone(),
    )
}

fn sample_report() -> RunReport {
    RunReport {
        semverguard_version: "0.1.0".to_string(),
        started_at: "2024-01-15T10:00:00Z".to_string(),
        finished_at: "2024-01-15T10:01:00Z".to_string(),
        workspace_root: "/workspace".to_string(),
        packages: vec![
            PackageReport {
                name: "b-lib".to_string(),
                version: "2.0.0".to_string(),
                manifest_path: "/workspace/b-lib/Cargo.toml".to_string(),
                status: PackageStatus::Failed,
                skip_reason: None,
                duration_ms: 10,
                command: vec![],
                engine: None,
                inferred_required_bump: Some(RequiredBump::Major),
                failure_kind: Some(FailureKind::SemverViolation),
                baseline_error: None,
            },
            PackageReport {
                name: "a-lib".to_string(),
                version: "1.0.0".to_string(),
                manifest_path: "/workspace/a-lib/Cargo.toml".to_string(),
                status: PackageStatus::Skipped,
                skip_reason: Some("publish = false".to_string()),
                duration_ms: 0,
                command: vec![],
                engine: None,
                inferred_required_bump: None,
                failure_kind: None,
                baseline_error: None,
            },
        ],
        summary: Summary {
            total: 2,
            passed: 0,
            failed: 1,
            skipped: 1,
        },
    }
}

fn report_with_required_bumps(bumps: &[RequiredBump]) -> RunReport {
    let mut packages = Vec::new();
    for (idx, bump) in bumps.iter().enumerate() {
        packages.push(PackageReport {
            name: format!("pkg-{idx}"),
            version: format!("1.0.{idx}"),
            manifest_path: format!("/workspace/pkg-{idx}/Cargo.toml"),
            status: PackageStatus::Failed,
            skip_reason: None,
            duration_ms: 1,
            command: vec![],
            engine: None,
            inferred_required_bump: Some(*bump),
            failure_kind: Some(FailureKind::SemverViolation),
            baseline_error: None,
        });
    }

    RunReport {
        semverguard_version: "0.1.0".to_string(),
        started_at: "2024-01-15T10:00:00Z".to_string(),
        finished_at: "2024-01-15T10:01:00Z".to_string(),
        workspace_root: "/workspace".to_string(),
        packages,
        summary: Summary {
            total: bumps.len(),
            passed: 0,
            failed: bumps.len(),
            skipped: 0,
        },
    }
}

fn report_with_semver_and_baseline_failures() -> RunReport {
    RunReport {
        semverguard_version: "0.1.0".to_string(),
        started_at: "2024-01-15T10:00:00Z".to_string(),
        finished_at: "2024-01-15T10:01:00Z".to_string(),
        workspace_root: "/workspace".to_string(),
        packages: vec![
            PackageReport {
                name: "alpha".to_string(),
                version: "1.0.0".to_string(),
                manifest_path: "/workspace/alpha/Cargo.toml".to_string(),
                status: PackageStatus::Failed,
                skip_reason: None,
                duration_ms: 10,
                command: vec![],
                engine: None,
                inferred_required_bump: Some(RequiredBump::Minor),
                failure_kind: Some(FailureKind::SemverViolation),
                baseline_error: None,
            },
            PackageReport {
                name: "beta".to_string(),
                version: "0.9.0".to_string(),
                manifest_path: "/workspace/beta/Cargo.toml".to_string(),
                status: PackageStatus::Failed,
                skip_reason: None,
                duration_ms: 5,
                command: vec![],
                engine: None,
                inferred_required_bump: None,
                failure_kind: Some(FailureKind::BaselineError),
                baseline_error: Some(BaselineErrorCause::RevisionNotFound {
                    rev: "deadbeef".to_string(),
                }),
            },
        ],
        summary: Summary {
            total: 2,
            passed: 0,
            failed: 2,
            skipped: 0,
        },
    }
}

#[test]
fn test_build_artifact_index_raw_logs_sorted() {
    let report = sample_report();
    let artifacts = build_artifact_index(
        "workspace",
        "artifacts/semverguard",
        Some(&report),
        false,
    );

    assert_eq!(artifacts.raw_logs.len(), 1);
    let raw = &artifacts.raw_logs[0];
    assert_eq!(raw.package, "b-lib");
    let stdout_path = Path::new(raw.stdout.as_ref().unwrap());
    let stderr_path = Path::new(raw.stderr.as_ref().unwrap());
    assert_eq!(
        stdout_path.file_name().unwrap().to_string_lossy(),
        "b-lib-2.0.0.stdout.log"
    );
    assert_eq!(
        stderr_path.file_name().unwrap().to_string_lossy(),
        "b-lib-2.0.0.stderr.log"
    );
}

#[test]
fn test_build_receipt_findings_ordering() {
    let report = report_with_semver_and_baseline_failures();
    let artifacts = build_artifact_index(
        "workspace",
        "artifacts/semverguard",
        Some(&report),
        false,
    );
    let receipt = build_receipt(
        Some(&report),
        &vec![],
        &artifacts,
        &BaselineConfig::default(),
        &report.workspace_root,
    );

    assert!(!receipt.findings.is_empty());
    for window in receipt.findings.windows(2) {
        let a = &window[0];
        let b = &window[1];
        assert!(
            finding_sort_key(a) <= finding_sort_key(b),
            "Findings should be sorted by severity, then package, then fingerprint"
        );
    }
}

#[test]
fn test_finding_level_severity_rank() {
    assert_eq!(FindingLevel::Error.severity_rank(), 0);
    assert_eq!(FindingLevel::Warning.severity_rank(), 1);
    assert_eq!(FindingLevel::Info.severity_rank(), 2);
}

#[test]
fn test_findings_sorted_severity_then_package() {
    // Create a report with both semver violation (error) and baseline error (warning)
    let report = report_with_semver_and_baseline_failures();
    let artifacts = build_artifact_index(
        "workspace",
        "artifacts/semverguard",
        Some(&report),
        false,
    );
    let receipt = build_receipt(
        Some(&report),
        &vec![],
        &artifacts,
        &BaselineConfig::default(),
        &report.workspace_root,
    );
    // With severity-first sort, errors come before warnings
    assert!(receipt.findings.len() >= 2);
    assert!(
        receipt.findings[0].level.severity_rank() <= receipt.findings[1].level.severity_rank()
    );
}

#[test]
fn test_summary_data_populated() {
    let report = sample_report();
    let artifacts = build_artifact_index(
        "workspace",
        "artifacts/semverguard",
        Some(&report),
        false,
    );
    let receipt = build_receipt(
        Some(&report),
        &vec![],
        &artifacts,
        &BaselineConfig::default(),
        &report.workspace_root,
    );
    let data = receipt.data.expect("data should be present");
    let summary = data.summary.expect("summary should be present");
    assert_eq!(summary.packages_total, 2);
    assert_eq!(summary.packages_checked, 1); // b-lib is failed (checked), a-lib is skipped
    assert_eq!(summary.packages_skipped, 1);
    assert_eq!(summary.violations, 1); // b-lib has SemverViolation
    assert_eq!(summary.baseline_issues, 0);
    assert_eq!(summary.max_required_bump, Some("major".to_string()));
    assert_eq!(summary.baseline_kind, "crates-io");
    assert!(summary.baseline_ref.is_none()); // default baseline has no version
}

#[test]
fn test_summary_data_required_bump_variants_and_git_baseline() {
    let report = report_with_required_bumps(&[
        RequiredBump::Minor,
        RequiredBump::Patch,
        RequiredBump::Unknown,
    ]);
    let baseline_git = BaselineConfig {
        kind: BaselineKind::Git,
        rev: Some("origin/main".to_string()),
        ..BaselineConfig::default()
    };
    let summary = build_summary_data(&report, &baseline_git);
    assert_eq!(summary.max_required_bump, Some("minor".to_string()));
    assert_eq!(summary.baseline_kind, "git");
    assert_eq!(summary.baseline_ref, Some("origin/main".to_string()));

    let report_patch =
        report_with_required_bumps(&[RequiredBump::Patch, RequiredBump::Unknown]);
    let summary_patch = build_summary_data(&report_patch, &BaselineConfig::default());
    assert_eq!(summary_patch.max_required_bump, Some("patch".to_string()));

    let report_unknown = report_with_required_bumps(&[RequiredBump::Unknown]);
    let summary_unknown = build_summary_data(&report_unknown, &BaselineConfig::default());
    assert_eq!(
        summary_unknown.max_required_bump,
        Some("unknown".to_string())
    );
}

#[test]
fn test_comment_includes_sections() {
    let report = sample_report();
    let artifacts = build_artifact_index(
        "workspace",
        "artifacts/semverguard",
        Some(&report),
        false,
    );
    let receipt = build_receipt(
        Some(&report),
        &vec![],
        &artifacts,
        &BaselineConfig::default(),
        &report.workspace_root,
    );

    let comment = render_comment(&receipt);
    assert!(comment.contains("### Failed packages"));
    assert!(comment.contains("### Skipped packages"));
    assert!(comment.contains("### Warnings / tool errors"));
}

#[test]
fn test_fingerprint_computation_deterministic() {
    let fp1 = compute_fingerprint("semver", "violation", "my-crate", "1.0.0");
    let fp2 = compute_fingerprint("semver", "violation", "my-crate", "1.0.0");
    assert_eq!(fp1, fp2);
    assert_eq!(fp1.len(), 64); // 32 bytes = 64 hex chars
}

#[test]
fn test_fingerprint_different_for_different_inputs() {
    let fp1 = compute_fingerprint("semver", "violation", "crate-a", "1.0.0");
    let fp2 = compute_fingerprint("semver", "violation", "crate-b", "1.0.0");
    let fp3 = compute_fingerprint("semver", "violation", "crate-a", "2.0.0");
    let fp4 = compute_fingerprint("baseline", "missing", "crate-a", "1.0.0");
    assert_ne!(fp1, fp2);
    assert_ne!(fp1, fp3);
    assert_ne!(fp1, fp4);
}

#[test]
fn test_capability_context_builder() {
    let ctx = CapabilityContext::new()
        .with_git_available(true)
        .with_git_detail("git 2.39.0")
        .with_baseline_available(true)
        .with_baseline_detail("baseline resolved from origin/main");

    let caps = ctx.build();
    assert_eq!(caps.git.status, CapabilityStatus::Available);
    assert_eq!(caps.git.detail, Some("git 2.39.0".to_string()));
    assert!(caps.git.reason.is_none());
    assert_eq!(caps.baseline.status, CapabilityStatus::Available);
    assert_eq!(
        caps.baseline.detail,
        Some("baseline resolved from origin/main".to_string())
    );
    assert!(caps.baseline.reason.is_none());
}

#[test]
fn test_capability_context_unavailable() {
    let ctx = CapabilityContext::new()
        .with_git_available(false)
        .with_git_detail("git not found")
        .with_baseline_available(false)
        .with_baseline_detail("no baseline configured");

    let caps = ctx.build();
    assert_eq!(caps.git.status, CapabilityStatus::Unavailable);
    assert_eq!(caps.git.reason, Some("git_unavailable".to_string()));
    assert_eq!(caps.baseline.status, CapabilityStatus::Unavailable);
    assert_eq!(caps.baseline.reason, Some("resolution_failed".to_string()));
}

#[test]
fn test_build_receipt_with_capabilities() {
    let report = sample_report();
    let artifacts = build_artifact_index(
        "workspace",
        "artifacts/semverguard",
        Some(&report),
        false,
    );
    let ctx = CapabilityContext::new()
        .with_git_available(true)
        .with_baseline_available(true);

    let receipt = build_receipt_with_capabilities(
        Some(&report),
        &vec![],
        &artifacts,
        &BaselineConfig::default(),
        &report.workspace_root,
        Some(&ctx),
    );

    assert!(receipt.run.capabilities.is_some());
    let caps = receipt.run.capabilities.unwrap();
    assert_eq!(caps.git.status, CapabilityStatus::Available);
    assert_eq!(caps.baseline.status, CapabilityStatus::Available);
}

#[test]
fn test_findings_have_fingerprints() {
    let report = sample_report();
    let artifacts = build_artifact_index(
        "workspace",
        "artifacts/semverguard",
        Some(&report),
        false,
    );
    let receipt = build_receipt(
        Some(&report),
        &vec![],
        &artifacts,
        &BaselineConfig::default(),
        &report.workspace_root,
    );

    // Findings from packages should have fingerprints
    assert!(!receipt.findings.is_empty());
    let non_tool: Vec<_> = receipt
        .findings
        .iter()
        .filter(|f| f.check_id != CHECK_TOOL)
        .collect();
    assert!(!non_tool.is_empty());
    for finding in non_tool {
        assert!(finding.fingerprint.is_some());
    }
}

#[test]
fn test_code_token_format() {
    // 2D: Validate all tokens match ^[a-z0-9_]+(\.[a-z0-9_]+)*$
    let tokens = [
        CHECK_SEMVER,
        CODE_VIOLATION,
        CHECK_BASELINE,
        CODE_MISSING,
        CHECK_TOOL,
        CODE_ERROR,
        CHECK_ENGINE,
        CODE_UNKNOWN,
    ];
    
    for token in &tokens {
        assert!(
            is_code_token(token),
            "Token '{}' does not match expected format",
            token
        );
    }
}

#[test]
fn test_reason_token_format() {
    let tokens = [
        REASON_SEMVER_VIOLATION,
        REASON_BASELINE_UNAVAILABLE,
        REASON_TOOL_ERROR,
        REASON_ENGINE_ERROR,
        REASON_TRUNCATED,
        REASON_ALL_PACKAGES_SKIPPED,
        REASON_WAIVED,
        CAP_REASON_GIT_UNAVAILABLE,
        CAP_REASON_SHALLOW_CLONE,
        CAP_REASON_RESOLUTION_FAILED,
        CAP_REASON_NOT_REQUIRED,
    ];
    
    for token in &tokens {
        assert!(
            is_reason_token(token),
            "Reason token '{}' does not match expected format",
            token
        );
    }
}

#[test]
fn test_required_bump_str_variants() {
    assert_eq!(required_bump_str(RequiredBump::Minor), "minor");
    assert_eq!(required_bump_str(RequiredBump::Patch), "patch");
    assert_eq!(required_bump_str(RequiredBump::Unknown), "unknown");
}

#[test]
fn test_compute_suggested_version() {
    assert_eq!(
        compute_suggested_version("1.0.0", RequiredBump::Major),
        Some("2.0.0".to_string())
    );
    assert_eq!(
        compute_suggested_version("1.2.3", RequiredBump::Minor),
        Some("1.3.0".to_string())
    );
    assert_eq!(
        compute_suggested_version("1.2.3", RequiredBump::Patch),
        Some("1.2.4".to_string())
    );
    assert_eq!(
        compute_suggested_version("1.2.3", RequiredBump::Unknown),
        None
    );
    assert_eq!(
        compute_suggested_version("not-semver", RequiredBump::Major),
        None
    );
}

#[test]
fn test_truncation_not_applied_under_limit() {
    let report = sample_report();
    let artifacts = build_artifact_index(
        "workspace",
        "artifacts/semverguard",
        Some(&report),
        false,
    );
    let receipt = build_receipt(
        Some(&report),
        &vec![],
        &artifacts,
        &BaselineConfig::default(),
        &report.workspace_root,
    );
    // Under the limit: no truncation totals in data, no "truncated" reason
    let data = receipt.data.as_ref().expect("data should be present");
    assert!(data.findings_total.is_none());
    assert!(data.findings_emitted.is_none());
    assert!(
        !receipt.verdict.reasons.contains(&"truncated".to_string()),
        "Verdict should not contain 'truncated' reason when under limit"
    );
}

#[test]
fn test_shallow_clone_capability() {
    let ctx = CapabilityContext::new()
        .with_git_available(true)
        .with_shallow_clone(true);
    let caps = ctx.build();
    assert_eq!(caps.git.status, CapabilityStatus::Available);
    assert!(caps.git.detail.as_ref().unwrap().contains("shallow clone"));
    assert_eq!(caps.git.reason, Some("shallow_clone".to_string()));
}

#[test]
fn test_git_skipped_overrides_available() {
    // Even when git is available, skipped takes priority
    let ctx = CapabilityContext::new()
        .with_git_available(true)
        .with_git_skipped(true);
    let caps = ctx.build();
    assert_eq!(caps.git.status, CapabilityStatus::Skipped);
    assert_eq!(caps.git.reason, Some("not_required".to_string()));
}

#[test]
fn test_git_skipped_overrides_unavailable() {
    // Even when git is unavailable, skipped takes priority
    let ctx = CapabilityContext::new()
        .with_git_available(false)
        .with_git_skipped(true);
    let caps = ctx.build();
    assert_eq!(caps.git.status, CapabilityStatus::Skipped);
    assert_eq!(caps.git.reason, Some("not_required".to_string()));
}

#[test]
fn test_baseline_skipped() {
    let ctx = CapabilityContext::new()
        .with_baseline_available(true)
        .with_baseline_skipped(true);
    let caps = ctx.build();
    assert_eq!(caps.baseline.status, CapabilityStatus::Skipped);
    assert_eq!(caps.baseline.reason, Some("not_required".to_string()));
}

#[test]
fn test_baseline_skipped_overrides_unavailable() {
    let ctx = CapabilityContext::new()
        .with_baseline_available(false)
        .with_baseline_skipped(true);
    let caps = ctx.build();
    assert_eq!(caps.baseline.status, CapabilityStatus::Skipped);
    assert_eq!(caps.baseline.reason, Some("not_required".to_string()));
}

#[test]
fn test_waiver_applied_by_fingerprint() {
    let report = sample_report();
    let artifacts = build_artifact_index(
        "workspace",
        "artifacts/semverguard",
        Some(&report),
        false,
    );
    // The sample report has b-lib with SemverViolation
    let fp = compute_fingerprint("semver", "violation", "b-lib", "2.0.0");
    let waivers = vec![WaiverEntry {
        fingerprint: fp.clone(),
        reason: "Intentional break".to_string(),
        ticket: Some("GH#1".to_string()),
        expires: None,
    }];
    let receipt = build_receipt_with_capabilities_versioned(
        Some(&report),
        &vec![],
        &artifacts,
        &BaselineConfig::default(),
        &report.workspace_root,
        None,
        None,
        &waivers,
    );
    // The finding should be waived
    let waived_finding = receipt
        .findings
        .iter()
        .find(|f| f.fingerprint.as_deref() == Some(&fp));
    assert!(waived_finding.is_some());
    let waived = waived_finding.unwrap().waived.as_ref().unwrap();
    assert_eq!(waived.reason, "Intentional break");
    assert_eq!(waived.ticket, Some("GH#1".to_string()));
}

#[test]
fn test_capability_context_git_version_combines_with_detail() {
    let ctx = CapabilityContext::new()
        .with_git_available(true)
        .with_git_detail("origin/main")
        .with_git_version("git 2.42.0");
    let caps = ctx.build();
    assert_eq!(
        caps.git.detail,
        Some("git 2.42.0; rev=origin/main".to_string())
    );
}

#[test]
fn test_resolve_artifacts_dir_absolute() {
    let dir = "/tmp/semverguard-artifacts";
    let artifacts = resolve_artifacts_dir("/workspace", dir);
    assert_eq!(artifacts, dir);
}

#[test]
fn test_build_findings_failure_kinds_and_data() {
    let packages = vec![
        PackageReport {
            name: "alpha".to_string(),
            version: "1.2.3".to_string(),
            manifest_path: "/workspace/alpha/Cargo.toml".to_string(),
            status: PackageStatus::Failed,
            skip_reason: None,
            duration_ms: 10,
            command: vec![],
            engine: Some(SemverCheckOutput {
                exit_code: Some(1),
                success: false,
                stdout: String::new(),
                stderr: "breaking".to_string(),
                required_bump: Some(RequiredBump::Major),
            }),
            inferred_required_bump: Some(RequiredBump::Major),
            failure_kind: Some(FailureKind::SemverViolation),
            baseline_error: None,
        },
        PackageReport {
            name: "beta".to_string(),
            version: "0.9.0".to_string(),
            manifest_path: "/workspace/beta/Cargo.toml".to_string(),
            status: PackageStatus::Failed,
            skip_reason: None,
            duration_ms: 5,
            command: vec![],
            engine: Some(SemverCheckOutput {
                exit_code: Some(2),
                success: false,
                stdout: String::new(),
                stderr: "baseline missing".to_string(),
                required_bump: None,
            }),
            inferred_required_bump: None,
            failure_kind: Some(FailureKind::BaselineError),
            baseline_error: Some(BaselineErrorCause::RevisionNotFound {
                rev: "origin/missing".to_string(),
            }),
        },
        PackageReport {
            name: "gamma".to_string(),
            version: "2.0.0".to_string(),
            manifest_path: "/workspace/gamma/Cargo.toml".to_string(),
            status: PackageStatus::Failed,
            skip_reason: Some("tool crashed".to_string()),
            duration_ms: 1,
            command: vec![],
            engine: None,
            inferred_required_bump: None,
            failure_kind: Some(FailureKind::ToolError),
            baseline_error: None,
        },
        PackageReport {
            name: "delta".to_string(),
            version: "0.1.0".to_string(),
            manifest_path: "/workspace/delta/Cargo.toml".to_string(),
            status: PackageStatus::Failed,
            skip_reason: None,
            duration_ms: 1,
            command: vec![],
            engine: None,
            inferred_required_bump: None,
            failure_kind: Some(FailureKind::Unknown),
            baseline_error: None,
        },
        PackageReport {
            name: "skip".to_string(),
            version: "0.1.0".to_string(),
            manifest_path: "/workspace/skip/Cargo.toml".to_string(),
            status: PackageStatus::Skipped,
            skip_reason: Some("filtered".to_string()),
            duration_ms: 0,
            command: vec![],
            engine: None,
            inferred_required_bump: None,
            failure_kind: None,
            baseline_error: None,
        },
    ];
    let report = RunReport {
        semverguard_version: "0.1.0".to_string(),
        started_at: "2024-01-15T10:00:00Z".to_string(),
        finished_at: "2024-01-15T10:01:00Z".to_string(),
        workspace_root: "/workspace".to_string(),
        packages,
        summary: Summary {
            total: 5,
            passed: 0,
            failed: 4,
            skipped: 1,
        },
    };
    let artifacts = build_artifact_index(
        "workspace",
        "artifacts/semverguard",
        Some(&report),
        false,
    );

    let findings = build_findings(&report, &artifacts, &report.workspace_root);
    assert_eq!(findings.len(), 4);

    let semver = findings
        .iter()
        .find(|f| f.check_id == CHECK_SEMVER)
        .unwrap();
    let semver_data = semver.data.as_ref().unwrap();
    assert_eq!(
        semver_data
            .suggested_version
            .as_deref(),
        Some("2.0.0")
    );

    let baseline = findings
        .iter()
        .find(|f| f.check_id == CHECK_BASELINE)
        .unwrap();
    assert!(baseline.message.contains("baseline missing"));
    let baseline_data = baseline.data.as_ref().unwrap();
    assert!(baseline_data.baseline_error_cause.is_some());

    let tool = findings.iter().find(|f| f.check_id == CHECK_TOOL).unwrap();
    assert!(tool.message.contains("tool crashed"));

    let unknown = findings
        .iter()
        .find(|f| f.check_id == CHECK_ENGINE)
        .unwrap();
    assert!(unknown.message.contains("unknown error"));
}

#[test]
fn test_build_failure_message_without_bump() {
    let pkg = PackageReport {
        name: "alpha".to_string(),
        version: "1.2.3".to_string(),
        manifest_path: "/workspace/alpha/Cargo.toml".to_string(),
        status: PackageStatus::Failed,
        skip_reason: None,
        duration_ms: 1,
        command: vec![],
        engine: None,
        inferred_required_bump: None,
        failure_kind: Some(FailureKind::SemverViolation),
        baseline_error: None,
    };

    let message = build_failure_message(&pkg, FailureKind::SemverViolation);
    assert!(message.contains("failed semantic versioning checks"));
}

#[test]
fn test_apply_waivers_with_expired_and_invalid_dates() {
    let mut findings = vec![Finding {
        check_id: CHECK_SEMVER.to_string(),
        code: CODE_VIOLATION.to_string(),
        level: FindingLevel::Error,
        message: "boom".to_string(),
        location: None,
        data: None,
        fingerprint: Some("fp".to_string()),
        waived: None,
    }];
    let waivers = vec![
        WaiverEntry {
            fingerprint: "fp".to_string(),
            reason: "expired".to_string(),
            ticket: None,
            expires: Some("2000-01-01".to_string()),
        },
        WaiverEntry {
            fingerprint: "fp".to_string(),
            reason: "invalid-date".to_string(),
            ticket: None,
            expires: Some("not-a-date".to_string()),
        },
    ];

    apply_waivers(&mut findings, &waivers, TODAY);
    let waived = findings[0].waived.as_ref().unwrap();
    assert_eq!(waived.reason, "invalid-date");
}

#[test]
fn test_apply_waivers_non_expired_applies() {
    let mut findings = vec![Finding {
        check_id: CHECK_SEMVER.to_string(),
        code: CODE_VIOLATION.to_string(),
        level: FindingLevel::Error,
        message: "boom".to_string(),
        location: None,
        data: None,
        fingerprint: Some("fp-ok".to_string()),
        waived: None,
    }];
    let waivers = vec![WaiverEntry {
        fingerprint: "fp-ok".to_string(),
        reason: "ok".to_string(),
        ticket: None,
        expires: Some("2099-01-01".to_string()),
    }];

    apply_waivers(&mut findings, &waivers, TODAY);
    assert!(findings[0].waived.is_some());
}

#[test]
fn test_apply_waivers_skips_missing_fingerprint() {
    let mut findings = vec![Finding {
        check_id: CHECK_SEMVER.to_string(),
        code: CODE_VIOLATION.to_string(),
        level: FindingLevel::Error,
        message: "boom".to_string(),
        location: None,
        data: None,
        fingerprint: None,
        waived: None,
    }];
    let waivers = vec![WaiverEntry {
        fingerprint: "fp-ok".to_string(),
        reason: "ok".to_string(),
        ticket: None,
        expires: Some("2099-01-01".to_string()),
    }];

    apply_waivers(&mut findings, &waivers, TODAY);
    assert!(findings[0].waived.is_none());
}

#[test]
fn test_is_waiver_expired_with_valid_date() {
    let waiver = WaiverEntry {
        fingerprint: "fp".to_string(),
        reason: "expired".to_string(),
        ticket: None,
        expires: Some("2000-01-01".to_string()),
    };
    assert!(is_waiver_expired(&waiver, TODAY));
}

#[test]
fn test_is_waiver_expired_invalid_month_returns_false() {
    let waiver = WaiverEntry {
        fingerprint: "fp".to_string(),
        reason: "invalid".to_string(),
        ticket: None,
        expires: Some("2024-13-01".to_string()),
    };
    assert!(!is_waiver_expired(&waiver, TODAY));
}

#[test]
fn test_is_waiver_expired_invalid_day_returns_false() {
    let waiver = WaiverEntry {
        fingerprint: "fp".to_string(),
        reason: "invalid".to_string(),
        ticket: None,
        expires: Some("2024-02-30".to_string()),
    };
    assert!(!is_waiver_expired(&waiver, TODAY));
}

#[test]
fn test_is_waiver_expired_invalid_format_returns_false() {
    let waiver = WaiverEntry {
        fingerprint: "fp".to_string(),
        reason: "invalid".to_string(),
        ticket: None,
        expires: Some("bad".to_string()),
    };
    assert!(!is_waiver_expired(&waiver, TODAY));
}

#[test]
fn test_derive_verdict_includes_engine_waived_truncated_and_skipped() {
    let findings = vec![
        Finding {
            check_id: CHECK_ENGINE.to_string(),
            code: CODE_UNKNOWN.to_string(),
            level: FindingLevel::Error,
            message: "engine failed".to_string(),
            location: None,
            data: None,
            fingerprint: None,
            waived: None,
        },
        Finding {
            check_id: CHECK_BASELINE.to_string(),
            code: CODE_MISSING.to_string(),
            level: FindingLevel::Warning,
            message: "baseline missing".to_string(),
            location: None,
            data: None,
            fingerprint: None,
            waived: Some(WaiverInfo {
                reason: "waived".to_string(),
                ticket: None,
                expires: None,
            }),
        },
    ];
    let report = RunReport {
        semverguard_version: "0.1.0".to_string(),
        started_at: "2024-01-15T10:00:00Z".to_string(),
        finished_at: "2024-01-15T10:01:00Z".to_string(),
        workspace_root: "/workspace".to_string(),
        packages: vec![],
        summary: Summary {
            total: 1,
            passed: 0,
            failed: 0,
            skipped: 1,
        },
    };

    let (status, reasons) = derive_verdict(&findings, Some(&report), true);
    assert_eq!(status, VerdictStatus::Fail);
    assert!(reasons.contains(&REASON_ENGINE_ERROR.to_string()));
    assert!(reasons.contains(&REASON_ALL_PACKAGES_SKIPPED.to_string()));
    assert!(reasons.contains(&REASON_TRUNCATED.to_string()));
    assert!(reasons.contains(&REASON_WAIVED.to_string()));
}

#[test]
fn test_derive_verdict_unknown_check_id_passes() {
    let findings = vec![Finding {
        check_id: "custom".to_string(),
        code: CODE_UNKNOWN.to_string(),
        level: FindingLevel::Error,
        message: "custom".to_string(),
        location: None,
        data: None,
        fingerprint: None,
        waived: None,
    }];

    let (status, reasons) = derive_verdict(&findings, None, false);
    assert_eq!(status, VerdictStatus::Pass);
    assert!(reasons.is_empty());
}

#[test]
fn test_derive_verdict_baseline_warn() {
    let findings = vec![Finding {
        check_id: CHECK_BASELINE.to_string(),
        code: CODE_MISSING.to_string(),
        level: FindingLevel::Warning,
        message: "baseline missing".to_string(),
        location: None,
        data: None,
        fingerprint: None,
        waived: None,
    }];

    let (status, reasons) = derive_verdict(&findings, None, false);
    assert_eq!(status, VerdictStatus::Warn);
    assert!(reasons.contains(&REASON_BASELINE_UNAVAILABLE.to_string()));
}

#[test]
fn test_derive_verdict_all_skipped() {
    let report = RunReport {
        semverguard_version: "0.1.0".to_string(),
        started_at: "2024-01-15T10:00:00Z".to_string(),
        finished_at: "2024-01-15T10:01:00Z".to_string(),
        workspace_root: "/workspace".to_string(),
        packages: vec![],
        summary: Summary {
            total: 2,
            passed: 0,
            failed: 0,
            skipped: 2,
        },
    };

    let (status, reasons) = derive_verdict(&vec![], Some(&report), false);
    assert_eq!(status, VerdictStatus::Skip);
    assert!(reasons.contains(&REASON_ALL_PACKAGES_SKIPPED.to_string()));
}

#[test]
fn test_exit_code_from_receipt_tool_error_and_warn_as_fail() {
    let verdict = Verdict {
        status: VerdictStatus::Fail,
        reasons: vec![],
    };
    assert_eq!(exit_code_from_receipt(&verdict, false, true), 1);

    let warn_verdict = Verdict {
        status: VerdictStatus::Warn,
        reasons: vec![],
    };
    assert_eq!(exit_code_from_receipt(&warn_verdict, true, false), 3);
}

#[test]
fn test_exit_code_from_receipt_warn_without_fail() {
    let verdict = Verdict {
        status: VerdictStatus::Warn,
        reasons: vec![],
    };
    assert_eq!(exit_code_from_receipt(&verdict, false, false), 0);
}

#[test]
fn test_truncation_applied_over_limit() {
    let errors: Vec<ToolErrorFinding> = (0..(MAX_FINDINGS + 1))
        .map(|_| ToolErrorFinding::new("boom"))
        .collect();
    let artifacts = build_artifact_index(
        "workspace",
        "artifacts/semverguard",
        None,
        false,
    );
    let receipt = build_receipt_with_capabilities(
        None,
        &errors,
        &artifacts,
        &BaselineConfig::default(),
        "/workspace",
        None,
    );
    assert_eq!(receipt.findings.len(), MAX_FINDINGS);
    assert!(
        receipt
            .verdict
            .reasons
            .contains(&REASON_TRUNCATED.to_string())
    );
}

#[test]
fn test_waived_findings_skip_verdict() {
    let report = sample_report();
    let artifacts = build_artifact_index(
        "workspace",
        "artifacts/semverguard",
        Some(&report),
        false,
    );
    let fp = compute_fingerprint("semver", "violation", "b-lib", "2.0.0");
    let waivers = vec![WaiverEntry {
        fingerprint: fp,
        reason: "Intentional".to_string(),
        ticket: None,
        expires: None,
    }];
    let receipt = build_receipt_with_capabilities_versioned(
        Some(&report),
        &vec![],
        &artifacts,
        &BaselineConfig::default(),
        &report.workspace_root,
        None,
        None,
        &waivers,
    );
    // Verdict should NOT be Fail since the semver violation is waived
    assert_ne!(receipt.verdict.status, VerdictStatus::Fail);
    assert!(receipt.verdict.reasons.contains(&"waived".to_string()));
}


#[test]
fn receipt_test_build_receipt_findings_ordering() {
    let report = report_with_semver_and_baseline_failures();
    let artifacts = build_artifact_index(
        "workspace",
        "artifacts/semverguard",
        Some(&report),
        false,
    );
    let receipt = build_receipt(
        Some(&report),
        &vec![],
        &artifacts,
        &BaselineConfig::default(),
        &report.workspace_root,
    );

    assert!(!receipt.findings.is_empty());
    for window in receipt.findings.windows(2) {
        let a = &window[0];
        let b = &window[1];
        assert!(
            finding_sort_key(a) <= finding_sort_key(b),
            "Findings should be sorted by severity, then package, then fingerprint"
        );
    }
}


#[test]
fn receipt_test_comment_includes_sections() {
    let report = sample_report();
    let artifacts = build_artifact_index(
        "workspace",
        "artifacts/semverguard",
        Some(&report),
        false,
    );
    let receipt = build_receipt(
        Some(&report),
        &vec![],
        &artifacts,
        &BaselineConfig::default(),
        &report.workspace_root,
    );

    let comment = render_comment(&receipt);
    assert!(comment.contains("### Failed packages"));
    assert!(comment.contains("### Skipped packages"));
    assert!(comment.contains("### Warnings / tool errors"));
}


#[test]
fn receipt_test_build_artifact_index_raw_logs_sorted() {
    let report = sample_report();
    let artifacts = build_artifact_index(
        "workspace",
        "artifacts/semverguard",
        Some(&report),
        false,
    );

    assert_eq!(artifacts.raw_logs.len(), 1);
    let raw = &artifacts.raw_logs[0];
    assert_eq!(raw.package, "b-lib");
    let stdout_path = Path::new(raw.stdout.as_ref().unwrap());
    let stderr_path = Path::new(raw.stderr.as_ref().unwrap());
    assert_eq!(
        stdout_path.file_name().unwrap().to_string_lossy(),
        "b-lib-2.0.0.stdout.log"
    );
    assert_eq!(
        stderr_path.file_name().unwrap().to_string_lossy(),
        "b-lib-2.0.0.stderr.log"
    );
}


#[test]
fn test_capability_context_default() {
    let ctx = CapabilityContext::new();
    assert!(!ctx.git_available);
    assert!(!ctx.baseline_available);
    assert!(ctx.git_detail.is_none());
    assert!(ctx.baseline_detail.is_none());
}

#[test]
fn test_normalize_receipt_path_dotdot_guard() {
    let result = normalize_receipt_path("/workspace", "/other/dir/Cargo.toml");
    assert!(
        !result.contains(".."),
        "Result should not contain '..' path traversal: {}",
        result
    );
}

#[test]
fn test_normalize_receipt_path_forward_slashes() {
    let result = normalize_receipt_path("/workspace", "/workspace/foo/bar/Cargo.toml");
    assert!(
        !result.contains('\\'),
        "Normalized path should not contain backslashes: {}",
        result
    );
}

#[test]
fn test_normalize_receipt_path_no_absolute_in_output() {
    let result = normalize_receipt_path("/workspace", "/workspace/crates/lib/Cargo.toml");
    assert!(
        !result.starts_with('/'),
        "Normalized path should be relative, not absolute: {}",
        result
    );
}

#[test]
fn test_normalize_receipt_path_relative_input() {
    let result = normalize_receipt_path("/workspace", "artifacts/semverguard/report.json");
    assert!(
        !result.contains('\\'),
        "Relative path should use forward slashes: {}",
        result
    );
    assert!(
        !result.contains(".."),
        "Relative path should not contain path traversal: {}",
        result
    );
}

#[test]
fn test_normalize_receipt_path_traversal_fallback() {
    let result = normalize_receipt_path("/workspace", "/workspace/../secret.txt");
    assert_eq!(result, "secret.txt");
}

#[test]
fn test_sanitize_filename_component_replaces_special_chars() {
    let sanitized = sanitize_filename_component("a/b:c");
    assert_eq!(sanitized, "a_b_c");
}

#[test]
fn test_normalize_receipt_path_inside_workspace_exact() {
    assert_eq!(
        normalize_receipt_path("/workspace", "/workspace/crates/lib/Cargo.toml"),
        "crates/lib/Cargo.toml"
    );
}

#[test]
fn test_normalize_receipt_path_outside_kept_whole() {
    assert_eq!(normalize_receipt_path("/workspace", "/other/dir/Cargo.toml"), "/other/dir/Cargo.toml");
}

#[test]
fn test_sanitize_keeps_safe_characters() {
    assert_eq!(sanitize_filename_component("my-crate_1.0"), "my-crate_1.0");
    assert_eq!(sanitize_filename_component("a b\\c*?"), "a b_c__");
}

#[test]
fn test_duration_ms_from_strings() {
    assert_eq!(
        duration_ms_from_strings("2024-01-15T10:00:00Z", "2024-01-15T10:01:00Z"),
        Some(60000)
    );
    assert_eq!(duration_ms_from_strings("2024-01-15T10:01:00Z", "2024-01-15T10:00:00Z"), None);
    assert_eq!(duration_ms_from_strings("not a time", "2024-01-15T10:00:00Z"), None);
    assert_eq!(
        duration_ms_from_strings("2024-01-15T10:00:00.0005Z", "2024-01-15T10:00:00Z"),
        Some(0)
    );
}

#[test]
fn test_run_info_duration_from_report_times() {
    let report = sample_report();
    let artifacts = build_artifact_index("workspace", "artifacts/semverguard", Some(&report), false);
    let receipt = build_receipt(Some(&report), &vec![], &artifacts, &BaselineConfig::default(), "/workspace");
    assert_eq!(receipt.run.duration_ms, 60000);
    assert_eq!(receipt.run.started_at, "2024-01-15T10:00:00Z");
    assert_eq!(receipt.tool.name, "semverguard");
    assert_eq!(receipt.schema, "sensor.report.v1");
}
