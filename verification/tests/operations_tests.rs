use semverguard::model::{
    BaselineKind, ListResult, ListedPackage, PackageStatus, RunMode, ScopeMode, SemverguardConfig,
    SkippedPackage,
};
use semverguard::operations::{
    build_pr_mode_skipped_report, event_labels, labels_force_run, labels_of_event, normalize_label,
    parse_label_list,
    pr_mode_skip_message, pr_mode_skip_rev,
};

#[test]
fn test_parse_label_list_normalizes_and_filters_empty() {
    let labels = parse_label_list(" semver:run, ,Run-SemverGuard ,");
    assert_eq!(
        labels,
        vec!["semver:run".to_string(), "run-semverguard".to_string()]
    );
}

#[test]
fn test_normalize_label_trims_and_lowercases() {
    assert_eq!(normalize_label("  SemVer:Run "), "semver:run");
}

#[test]
fn test_parse_label_list_empty_input() {
    assert!(parse_label_list("").is_empty());
    assert!(parse_label_list(" , ,").is_empty());
}

#[test]
fn test_labels_force_run() {
    assert!(labels_force_run(&vec!["semver:run".to_string()]));
    assert!(labels_force_run(&vec!["x".to_string(), "run-semverguard".to_string()]));
    assert!(!labels_force_run(&vec!["other".to_string()]));
    assert!(!labels_force_run(&vec![]));
}

#[test]
fn test_build_pr_mode_skipped_report_marks_all_as_skipped_and_sorted() {
    let list_result = ListResult {
        workspace_root: ".".to_string(),
        would_check: vec![
            ListedPackage {
                name: "zeta".to_string(),
                version: "1.0.0".to_string(),
                manifest_path: "crates/zeta/Cargo.toml".to_string(),
            },
            ListedPackage {
                name: "alpha".to_string(),
                version: "2.0.0".to_string(),
                manifest_path: "crates/alpha/Cargo.toml".to_string(),
            },
        ],
        would_skip: vec![SkippedPackage {
            name: "beta".to_string(),
            version: "0.5.0".to_string(),
            manifest_path: "crates/beta/Cargo.toml".to_string(),
            reason: "excluded by pattern".to_string(),
        }],
    };

    let report = build_pr_mode_skipped_report(
        list_result,
        "pr mode gate skip",
        "1970-01-01T00:00:00Z",
        "1970-01-01T00:00:01Z",
        "0.1.0",
    );

    assert_eq!(report.summary.total, 3);
    assert_eq!(report.summary.passed, 0);
    assert_eq!(report.summary.failed, 0);
    assert_eq!(report.summary.skipped, 3);
    assert_eq!(report.packages[0].name, "alpha");
    assert_eq!(report.packages[1].name, "beta");
    assert_eq!(report.packages[2].name, "zeta");
    assert_eq!(report.packages[0].status, PackageStatus::Skipped);
    assert_eq!(report.packages[1].status, PackageStatus::Skipped);
    assert_eq!(report.packages[2].status, PackageStatus::Skipped);
    assert_eq!(report.packages[0].skip_reason.as_deref(), Some("pr mode gate skip"));
    assert_eq!(report.packages[1].skip_reason.as_deref(), Some("excluded by pattern"));
    assert_eq!(report.started_at, "1970-01-01T00:00:00Z");
    assert_eq!(report.semverguard_version, "0.1.0");
}

fn pr_changed_git_config() -> SemverguardConfig {
    let mut cfg = SemverguardConfig::default();
    cfg.scope.mode = ScopeMode::Changed;
    cfg.baseline.kind = BaselineKind::Git;
    cfg.baseline.rev = Some("origin/main".to_string());
    cfg
}

#[test]
fn test_pr_mode_skip_rev_applies_only_to_pr_changed_git_runs() {
    let cfg = pr_changed_git_config();
    assert_eq!(pr_mode_skip_rev(&cfg, RunMode::Pr, false), Some("origin/main".to_string()));
    assert_eq!(pr_mode_skip_rev(&cfg, RunMode::Release, false), None);
    assert_eq!(pr_mode_skip_rev(&cfg, RunMode::Pr, true), None);

    let mut workspace_scope = pr_changed_git_config();
    workspace_scope.scope.mode = ScopeMode::Workspace;
    assert_eq!(pr_mode_skip_rev(&workspace_scope, RunMode::Pr, false), None);

    let mut crates_io = pr_changed_git_config();
    crates_io.baseline.kind = BaselineKind::CratesIo;
    assert_eq!(pr_mode_skip_rev(&crates_io, RunMode::Pr, false), None);

    let mut no_rev = pr_changed_git_config();
    no_rev.baseline.rev = None;
    assert_eq!(pr_mode_skip_rev(&no_rev, RunMode::Pr, false), None);
}

#[test]
fn test_pr_mode_skip_message_per_detection_outcome() {
    assert_eq!(pr_mode_skip_message("origin/main", &Ok(true)), None);
    assert_eq!(
        pr_mode_skip_message("origin/main", &Ok(false)),
        Some(
            "pr mode gate: skipped because no Cargo.toml version change was detected relative to origin/main, and no forcing label is present"
                .to_string()
        )
    );
    assert_eq!(
        pr_mode_skip_message("origin/main", &Err("git failed".to_string())),
        Some(
            "pr mode gate: skipped because version-change detection failed relative to origin/main: git failed"
                .to_string()
        )
    );
}

#[test]
fn event_labels_reads_pull_request_label_names() {
    let raw = r#"{"pull_request": {"labels": [{"name": " Semver:Run "}, {"id": 3}, {"name": 7}, {"name": "docs"}]}}"#;
    assert_eq!(event_labels(raw), vec!["semver:run".to_string(), "docs".to_string()]);
}

#[test]
fn event_labels_of_other_shapes_are_empty() {
    assert!(event_labels("not json").is_empty());
    assert!(event_labels(r#"{"issue": {"labels": [{"name": "x"}]}}"#).is_empty());
    assert!(event_labels(r#"{"pull_request": {"labels": {"name": "x"}}}"#).is_empty());
    assert!(event_labels(r#"{"pull_request": []}"#).is_empty());
}

#[test]
fn labels_of_event_takes_a_parsed_value() {
    let value: serde_json::Value =
        serde_json::from_str(r#"{"pull_request": {"labels": [{"name": "RUN-SEMVERGUARD"}]}}"#).unwrap();
    assert_eq!(labels_of_event(&value), vec!["run-semverguard".to_string()]);
}
