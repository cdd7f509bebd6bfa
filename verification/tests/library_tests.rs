use semverguard::assemble::{has_tool_error, sort_findings};
use semverguard::artifacts::raw_log_files;
use semverguard::cli::{receipt_run_exit, text_lines, tool_error_receipt};
use semverguard::config::ValidationResult;
use semverguard::error::SemverguardError;
use semverguard::findings::bumped_version;
use semverguard::model::{
    BaselineKind, FailureKind, FindingLevel, OutputFormat, PackageReport, PackageStatus,
    RequiredBump, RunMode, RunReport, SemverCheckOutput, SemverguardConfig, Summary,
    VerdictStatus, WorkspacePackage,
};
use semverguard::paths::join_path;
use semverguard::pipeline::finish_pipeline;
use semverguard::promote::{render_promotion, PromotionResult};
use semverguard::receipt::{
    Finding, FindingData, FindingLocation, Verdict, CHECK_TOOL, REASON_TOOL_ERROR,
};
use semverguard::render::{render_finding_table, render_validation};
use semverguard::runner::{
    build_request, contains_name, record_outcome, scope_changed, RunArtifacts,
};
use semverguard::sarif::{finding_to_sarif_result, receipt_to_sarif, SarifLevel, RULE_TOOL_ERROR};
use semverguard::waivers::{parse_decimal, split_chars};

fn pkg(name: &str) -> WorkspacePackage {
    WorkspacePackage {
        name: name.to_string(),
        version: "1.0.0".to_string(),
        manifest_path: format!("/ws/{name}/Cargo.toml"),
        package_root: format!("/ws/{name}"),
        publishable: true,
        has_lib: true,
    }
}

fn finding(check_id: &str, level: FindingLevel, package: &str) -> Finding {
    Finding {
        check_id: check_id.to_string(),
        code: "code".to_string(),
        level,
        message: format!("{check_id} {package}"),
        location: None,
        data: Some(FindingData {
            package: package.to_string(),
            version: "1.0.0".to_string(),
            required_bump: None,
            failure_kind: "unknown".to_string(),
            manifest_path: format!("{package}/Cargo.toml"),
            suggested_version: None,
            baseline_error_cause: None,
        }),
        fingerprint: None,
        waived: None,
    }
}

fn report_with(packages: Vec<PackageReport>) -> RunReport {
    RunReport {
        semverguard_version: "0.1.0".to_string(),
        started_at: "2024-01-15T10:00:00Z".to_string(),
        finished_at: "2024-01-15T10:00:02Z".to_string(),
        workspace_root: "/ws".to_string(),
        summary: Summary { total: packages.len(), passed: 0, failed: packages.len(), skipped: 0 },
        packages,
    }
}

fn failed(name: &str, engine: Option<SemverCheckOutput>, reason: Option<&str>) -> PackageReport {
    PackageReport {
        name: name.to_string(),
        version: "1.0.0".to_string(),
        manifest_path: format!("/ws/{name}/Cargo.toml"),
        status: PackageStatus::Failed,
        skip_reason: reason.map(|r| r.to_string()),
        duration_ms: 1,
        command: vec![],
        engine,
        inferred_required_bump: None,
        failure_kind: Some(FailureKind::ToolError),
        baseline_error: None,
    }
}

#[test]
fn test_tool_error_receipt_and_exit() {
    let mut config = SemverguardConfig::default();
    config.output.format = OutputFormat::Receipt;
    let receipt = tool_error_receipt("boom", &config, "/ws", "/ws/artifacts/semverguard", false);

    assert_eq!(receipt.verdict.status, VerdictStatus::Fail);
    assert!(receipt.verdict.reasons.contains(&REASON_TOOL_ERROR.to_string()));
    assert_eq!(receipt.findings.len(), 1);
    assert_eq!(receipt.findings[0].check_id, CHECK_TOOL);
    assert!(receipt.findings[0].message.contains("boom"));
    assert!(receipt.data.is_none());
    let caps = receipt.run.capabilities.as_ref().unwrap();
    assert_eq!(caps.baseline.detail, Some("error: boom".to_string()));
    assert_eq!(receipt.artifacts.report_json, "artifacts/semverguard/report.json");
    assert!(has_tool_error(&receipt.findings));

    assert_eq!(receipt_run_exit(false, Ok(()), &receipt.verdict, false, true), Ok(1));
    assert_eq!(receipt_run_exit(true, Ok(()), &receipt.verdict, false, true), Ok(0));
    assert_eq!(receipt_run_exit(true, Err("disk full".to_string()), &receipt.verdict, false, true), Ok(1));
    assert_eq!(
        receipt_run_exit(false, Err("disk full".to_string()), &receipt.verdict, false, true),
        Err("disk full".to_string())
    );
    let warn = Verdict { status: VerdictStatus::Warn, reasons: vec![] };
    assert_eq!(receipt_run_exit(false, Ok(()), &warn, true, false), Ok(3));
}

#[test]
fn test_finish_pipeline_error_and_success() {
    let mut config = SemverguardConfig::default();
    config.output.format = OutputFormat::Text;
    let err = finish_pipeline(
        "/ws",
        &config,
        false,
        None,
        Err(SemverguardError::Workspace("no metadata".to_string())),
        false,
        false,
        None,
        RunMode::Pr,
        "2024-01-15T10:00:00Z",
        "2024-01-15T10:00:01Z",
    );
    assert!(matches!(err, Err(SemverguardError::Workspace(_))));

    config.output.format = OutputFormat::Receipt;
    let receipt_err = finish_pipeline(
        "/ws",
        &config,
        false,
        Some("9.9.9"),
        Err(SemverguardError::Workspace("no metadata".to_string())),
        false,
        false,
        None,
        RunMode::Pr,
        "2024-01-15T10:00:00Z",
        "2024-01-15T10:00:01Z",
    )
    .unwrap();
    assert!(receipt_err.report.is_none());
    assert_eq!(receipt_err.exit_code, 1);
    assert_eq!(receipt_err.receipt.tool.version, "9.9.9");

    config.output.format = OutputFormat::Text;
    let run = RunArtifacts {
        workspace_root: "/ws".to_string(),
        packages: vec![failed("alpha", None, Some("engine invocation failed: x"))],
        summary: Summary { total: 1, passed: 0, failed: 1, skipped: 0 },
    };
    let ok = finish_pipeline(
        "/ws",
        &config,
        false,
        None,
        Ok(run),
        true,
        false,
        None,
        RunMode::Release,
        "2024-01-15T10:00:00Z",
        "2024-01-15T10:00:01Z",
    )
    .unwrap();
    let report = ok.report.as_ref().unwrap();
    assert_eq!(report.semverguard_version, "0.1.0");
    assert_eq!(report.started_at, "2024-01-15T10:00:00Z");
    assert_eq!(ok.exit_code, 1);
    assert_eq!(ok.receipt.run.duration_ms, 1000);
}

#[test]
fn test_raw_log_files_sorted_with_fallback_texts() {
    let engine = SemverCheckOutput {
        exit_code: Some(1),
        success: false,
        stdout: "out".to_string(),
        stderr: "err".to_string(),
        required_bump: None,
    };
    let mut skipped = failed("skip", None, Some("filtered"));
    skipped.status = PackageStatus::Skipped;
    let report = report_with(vec![
        failed("beta", None, Some("engine missing")),
        failed("alpha", Some(engine), None),
        skipped,
    ]);
    let files = raw_log_files(&report, "/out");
    assert_eq!(
        files,
        vec![
            ("/out/raw/alpha-1.0.0.stdout.log".to_string(), "out".to_string()),
            ("/out/raw/alpha-1.0.0.stderr.log".to_string(), "err".to_string()),
            ("/out/raw/beta-1.0.0.stdout.log".to_string(), "no output".to_string()),
            ("/out/raw/beta-1.0.0.stderr.log".to_string(), "engine missing".to_string()),
        ]
    );
}

#[test]
fn test_sort_findings_by_severity_then_package() {
    let sorted = sort_findings(vec![
        finding("baseline", FindingLevel::Warning, "a"),
        finding("semver", FindingLevel::Error, "z"),
        finding("semver", FindingLevel::Error, "b"),
        finding("info", FindingLevel::Info, "a"),
    ]);
    let order: Vec<(FindingLevel, String)> = sorted
        .iter()
        .map(|f| (f.level, f.data.as_ref().unwrap().package.clone()))
        .collect();
    assert_eq!(
        order,
        vec![
            (FindingLevel::Error, "b".to_string()),
            (FindingLevel::Error, "z".to_string()),
            (FindingLevel::Warning, "a".to_string()),
            (FindingLevel::Info, "a".to_string()),
        ]
    );
    assert!(!has_tool_error(&sorted));
}

#[test]
fn test_finding_to_sarif_result_prefers_manifest_location() {
    let mut f = finding("tool", FindingLevel::Error, "alpha");
    f.location = Some(FindingLocation {
        path: Some("crates\\alpha\\Cargo.toml".to_string()),
        line: None,
        column: None,
        raw_log: Some("raw/alpha-1.0.0.stderr.log".to_string()),
    });
    let r = finding_to_sarif_result(&f);
    assert_eq!(r.rule_id, RULE_TOOL_ERROR);
    assert_eq!(r.level, SarifLevel::Error);
    assert_eq!(r.message.text, "tool alpha (see raw log: raw/alpha-1.0.0.stderr.log)");
    assert_eq!(r.locations.len(), 1);
    assert_eq!(r.locations[0].physical_location.artifact_location.uri, "crates/alpha/Cargo.toml");
    assert!(r.locations[0].physical_location.region.is_none());
    let props = r.properties.as_ref().unwrap();
    assert_eq!(props.package_name, Some("alpha".to_string()));
    assert_eq!(props.raw_stderr_log, Some("raw/alpha-1.0.0.stderr.log".to_string()));
}

#[test]
fn test_receipt_to_sarif_carries_findings_and_tool() {
    let config = SemverguardConfig::default();
    let receipt = tool_error_receipt("boom", &config, "/ws", "/ws/out", false);
    let log = receipt_to_sarif(&receipt);
    assert_eq!(log.version, "2.1.0");
    assert_eq!(log.runs.len(), 1);
    assert_eq!(log.runs[0].tool.driver.name, "semverguard");
    assert_eq!(log.runs[0].results.len(), 1);
    assert!(log.runs[0].results[0].message.text.contains("boom"));
    assert_eq!(log.runs[0].tool.driver.rules.len(), 6);
}

#[test]
fn test_bumped_version() {
    assert_eq!(bumped_version(Some((1, 2, 3)), RequiredBump::Major), Some("2.0.0".to_string()));
    assert_eq!(bumped_version(Some((1, 2, 3)), RequiredBump::Minor), Some("1.3.0".to_string()));
    assert_eq!(bumped_version(Some((1, 2, 3)), RequiredBump::Patch), Some("1.2.4".to_string()));
    assert_eq!(bumped_version(Some((1, 2, 3)), RequiredBump::Unknown), None);
    assert_eq!(bumped_version(None, RequiredBump::Major), None);
    assert_eq!(bumped_version(Some((u64::MAX, 0, 0)), RequiredBump::Major), None);
}

#[test]
fn test_split_and_parse_decimal() {
    let parts = split_chars(&"2024-06-01".chars().collect(), '-');
    let texts: Vec<String> = parts.iter().map(|p| p.iter().collect()).collect();
    assert_eq!(texts, vec!["2024", "06", "01"]);
    assert_eq!(parse_decimal(&"2024".chars().collect(), 10000), Some(2024));
    assert_eq!(parse_decimal(&"06".chars().collect(), 255), Some(6));
    assert_eq!(parse_decimal(&"256".chars().collect(), 255), None);
    assert_eq!(parse_decimal(&"x1".chars().collect(), 255), None);
    assert_eq!(parse_decimal(&"".chars().collect(), 255), None);
}

#[test]
fn test_text_lines_and_join_path() {
    let lines: Vec<String> = text_lines("a\r\nb\n\nc").iter().map(|l| l.iter().collect()).collect();
    assert_eq!(lines, vec!["a", "b", "", "c"]);
    assert!(text_lines("").is_empty());
    assert_eq!(join_path("/ws", "artifacts/sg"), "/ws/artifacts/sg");
    assert_eq!(join_path("/ws", "/abs/dir"), "/abs/dir");
}

#[test]
fn test_request_and_outcome_records() {
    let mut config = SemverguardConfig::default();
    config.baseline.kind = BaselineKind::Git;
    config.engine.extra_args = vec!["--verbose".to_string()];
    let p = pkg("alpha");
    let request = build_request("/ws", &p, &config);
    assert_eq!(request.workspace_root, "/ws");
    assert_eq!(request.manifest_path, "/ws/alpha/Cargo.toml");
    assert_eq!(request.extra_args, vec!["--verbose".to_string()]);
    assert_eq!(request.baseline.kind, BaselineKind::Git);

    let report = record_outcome(&p, Err(SemverguardError::Engine("gone".to_string())), 7);
    assert_eq!(report.status, PackageStatus::Failed);
    assert_eq!(report.skip_reason.as_deref(), Some("engine invocation failed: engine error: gone"));
    assert_eq!(report.failure_kind, Some(FailureKind::ToolError));
    assert_eq!(report.duration_ms, 7);
}

#[test]
fn test_scope_changed_and_contains_name() {
    let changed = vec!["beta".to_string()];
    assert!(contains_name(&changed, "beta"));
    assert!(!contains_name(&changed, "alpha"));
    let (skips, scoped) = scope_changed(&vec![pkg("alpha"), pkg("beta")], &changed, "origin/main");
    assert_eq!(skips.len(), 1);
    assert_eq!(skips[0].0.name, "alpha");
    assert_eq!(skips[0].1, "unchanged relative to origin/main");
    assert_eq!(scoped.len(), 1);
    assert_eq!(scoped[0].name, "beta");
}

#[test]
fn test_render_validation_and_promotion_and_table() {
    let clean = ValidationResult::new();
    assert_eq!(render_validation("sg.toml", &clean), "Configuration is valid: sg.toml\n");

    let mut both = ValidationResult::new();
    both.add_warning("w1".to_string());
    both.add_error("e1".to_string());
    assert_eq!(render_validation("sg.toml", &both), "Warnings:\n  - w1\n\nErrors:\n  - e1\n");

    let dry = PromotionResult {
        previous: None,
        new_value: "abc123".to_string(),
        config_key: "baseline.rev".to_string(),
        written: false,
    };
    assert_eq!(
        render_promotion("sg.toml", &dry),
        "Dry run (use --write to apply):\n  Key:      baseline.rev\n  Previous: (not set)\n  New:      abc123\n"
    );

    let table = render_finding_table();
    assert!(table.starts_with("Finding types:\n\nCHECK_ID         CODE             LEVEL    TITLE\n"));
    assert!(table.contains(&"-".repeat(72)));
    assert!(table.contains("semver           violation        error    SemVer Policy Violation\n"));
}
