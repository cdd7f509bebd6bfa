use semverguard::findings::failure_kind_str;
use semverguard::model::{FailureKind, PackageReport, PackageStatus, RequiredBump, RunReport, Summary};
use semverguard::sarif::{
    path_to_uri, report_to_sarif, SarifLevel, RULE_BASELINE_ERROR, RULE_SEMVER_BREAKING,
    RULE_SEMVER_MAJOR_REQUIRED, RULE_SEMVER_MINOR_REQUIRED, RULE_SEMVER_PATCH_REQUIRED,
    RULE_TOOL_ERROR,
};


fn sample_report() -> RunReport {
    RunReport {
        semverguard_version: "0.1.0".to_string(),
        started_at: "2024-01-15T10:00:00Z".to_string(),
        finished_at: "2024-01-15T10:01:00Z".to_string(),
        workspace_root: "/workspace".to_string(),
        packages: vec![
            PackageReport {
                name: "lib-a".to_string(),
                version: "1.0.0".to_string(),
                manifest_path: "/workspace/crates/lib-a/Cargo.toml".to_string(),
                status: PackageStatus::Failed,
                skip_reason: None,
                duration_ms: 500,
                command: vec!["cargo".to_string()],
                engine: None,
                inferred_required_bump: Some(RequiredBump::Major),
                failure_kind: Some(FailureKind::SemverViolation),
                baseline_error: None,
            },
            PackageReport {
                name: "lib-b".to_string(),
                version: "2.0.0".to_string(),
                manifest_path: "/workspace/crates/lib-b/Cargo.toml".to_string(),
                status: PackageStatus::Passed,
                skip_reason: None,
                duration_ms: 300,
                command: vec!["cargo".to_string()],
                engine: None,
                inferred_required_bump: None,
                failure_kind: None,
                baseline_error: None,
            },
        ],
        summary: Summary {
            total: 2,
            passed: 1,
            failed: 1,
            skipped: 0,
        },
    }
}

#[test]
fn test_report_to_sarif_basic() {
    let report = sample_report();
    let sarif = report_to_sarif(&report, None);

    assert_eq!(sarif.version, "2.1.0");
    assert_eq!(sarif.runs.len(), 1);
    assert_eq!(sarif.runs[0].tool.driver.name, "semverguard");
    assert_eq!(
        sarif.runs[0].tool.driver.semantic_version,
        Some("0.1.0".to_string())
    );
}

#[test]
fn test_report_to_sarif_results() {
    let report = sample_report();
    let sarif = report_to_sarif(&report, None);

    // Only failed packages should be in results
    assert_eq!(sarif.runs[0].results.len(), 1);
    let result = &sarif.runs[0].results[0];
    assert_eq!(result.rule_id, RULE_SEMVER_MAJOR_REQUIRED);
    assert!(matches!(result.level, SarifLevel::Error));
}

#[test]
fn test_report_to_sarif_rules() {
    let report = sample_report();
    let sarif = report_to_sarif(&report, None);

    let rules = &sarif.runs[0].tool.driver.rules;
    assert_eq!(rules.len(), 6);
    assert!(rules.iter().any(|r| r.id == RULE_SEMVER_BREAKING));
    assert!(rules.iter().any(|r| r.id == RULE_SEMVER_MAJOR_REQUIRED));
    assert!(rules.iter().any(|r| r.id == RULE_SEMVER_MINOR_REQUIRED));
    assert!(rules.iter().any(|r| r.id == RULE_SEMVER_PATCH_REQUIRED));
    assert!(rules.iter().any(|r| r.id == RULE_TOOL_ERROR));
    assert!(rules.iter().any(|r| r.id == RULE_BASELINE_ERROR));
}

#[test]
fn test_path_to_uri_unix() {
    let uri = path_to_uri("/workspace/Cargo.toml", None);
    assert!(uri.starts_with("file://"));
    assert!(uri.contains("workspace"));
    assert!(uri.contains("Cargo.toml"));
}

#[test]
fn test_sarif_invocation() {
    let report = sample_report();
    let sarif = report_to_sarif(&report, None);

    assert_eq!(sarif.runs[0].invocations.len(), 1);
    let invocation = &sarif.runs[0].invocations[0];
    assert!(!invocation.execution_successful); // Has failures
    assert_eq!(
        invocation.start_time_utc,
        Some("2024-01-15T10:00:00Z".to_string())
    );
    assert_eq!(
        invocation.end_time_utc,
        Some("2024-01-15T10:01:00Z".to_string())
    );
}

#[test]
fn test_empty_report() {
    let report = RunReport {
        semverguard_version: "0.1.0".to_string(),
        started_at: "2024-01-15T10:00:00Z".to_string(),
        finished_at: "2024-01-15T10:00:01Z".to_string(),
        workspace_root: "/workspace".to_string(),
        packages: vec![],
        summary: Summary {
            total: 0,
            passed: 0,
            failed: 0,
            skipped: 0,
        },
    };

    let sarif = report_to_sarif(&report, None);
    assert!(sarif.runs[0].results.is_empty());
    assert!(sarif.runs[0].invocations[0].execution_successful);
}

#[test]
fn test_result_properties() {
    let report = sample_report();
    let sarif = report_to_sarif(&report, None);

    let result = &sarif.runs[0].results[0];
    let props = result.properties.as_ref().unwrap();
    assert_eq!(props.package_name, Some("lib-a".to_string()));
    assert_eq!(props.package_version, Some("1.0.0".to_string()));
    assert_eq!(props.required_bump, Some("Major".to_string()));
    assert_eq!(props.duration_ms, Some(500));
    // Verify failure_kind is included in properties
    assert_eq!(
        props.failure_kind,
        Some("semver-violation".to_string())
    );
}

#[test]
fn test_sarif_no_region_data() {
    // Verify honesty policy: no region data is ever emitted
    let report = sample_report();
    let sarif = report_to_sarif(&report, None);

    for result in &sarif.runs[0].results {
        for loc in &result.locations {
            assert!(
                loc.physical_location.region.is_none(),
                "HONESTY POLICY VIOLATION: region data should never be emitted"
            );
        }
    }
}

#[test]
fn test_sarif_location_is_manifest_path() {
    // Verify honesty policy: location always points to Cargo.toml
    let report = sample_report();
    let sarif = report_to_sarif(&report, None);

    for result in &sarif.runs[0].results {
        for loc in &result.locations {
            assert!(
                loc.physical_location
                    .artifact_location
                    .uri
                    .contains("Cargo.toml"),
                "HONESTY POLICY: location should point to Cargo.toml manifest"
            );
        }
    }
}

#[test]
fn test_failure_kind_str() {
    assert_eq!(failure_kind_str(FailureKind::SemverViolation), "semver-violation");
    assert_eq!(failure_kind_str(FailureKind::ToolError), "tool-error");
    assert_eq!(failure_kind_str(FailureKind::BaselineError), "baseline-error");
    assert_eq!(failure_kind_str(FailureKind::Unknown), "unknown");
}

#[test]
fn test_tool_error_sarif_result() {
    // Test that tool errors map to the correct rule
    let report = RunReport {
        semverguard_version: "0.1.0".to_string(),
        started_at: "2024-01-15T10:00:00Z".to_string(),
        finished_at: "2024-01-15T10:01:00Z".to_string(),
        workspace_root: "/workspace".to_string(),
        packages: vec![PackageReport {
            name: "failing-lib".to_string(),
            version: "1.0.0".to_string(),
            manifest_path: "/workspace/crates/failing-lib/Cargo.toml".to_string(),
            status: PackageStatus::Failed,
            skip_reason: None,
            duration_ms: 100,
            command: vec!["cargo".to_string()],
            engine: None,
            inferred_required_bump: None,
            failure_kind: Some(FailureKind::ToolError),
            baseline_error: None,
        }],
        summary: Summary {
            total: 1,
            passed: 0,
            failed: 1,
            skipped: 0,
        },
    };

    let sarif = report_to_sarif(&report, None);
    let result = &sarif.runs[0].results[0];

    assert_eq!(result.rule_id, RULE_TOOL_ERROR);
    assert!(matches!(result.level, SarifLevel::Error));
    assert!(result.message.text.contains("Tool error"));
}

#[test]
fn test_baseline_error_sarif_result() {
    // Test that baseline errors map to the correct rule with warning severity
    let report = RunReport {
        semverguard_version: "0.1.0".to_string(),
        started_at: "2024-01-15T10:00:00Z".to_string(),
        finished_at: "2024-01-15T10:01:00Z".to_string(),
        workspace_root: "/workspace".to_string(),
        packages: vec![PackageReport {
            name: "new-lib".to_string(),
            version: "0.1.0".to_string(),
            manifest_path: "/workspace/crates/new-lib/Cargo.toml".to_string(),
            status: PackageStatus::Failed,
            skip_reason: None,
            duration_ms: 50,
            command: vec!["cargo".to_string()],
            engine: None,
            inferred_required_bump: None,
            failure_kind: Some(FailureKind::BaselineError),
            baseline_error: None,
        }],
        summary: Summary {
            total: 1,
            passed: 0,
            failed: 1,
            skipped: 0,
        },
    };

    let sarif = report_to_sarif(&report, None);
    let result = &sarif.runs[0].results[0];

    assert_eq!(result.rule_id, RULE_BASELINE_ERROR);
    // Baseline errors are warnings, not errors
    assert!(matches!(result.level, SarifLevel::Warning));
    assert!(result.message.text.contains("Baseline error"));
}

// =========================================================================
// Edge case tests
// =========================================================================

#[test]
fn test_all_packages_skipped_no_results() {
    // When all packages are skipped, there should be no SARIF results
    let report = RunReport {
        semverguard_version: "0.1.0".to_string(),
        started_at: "2024-01-15T10:00:00Z".to_string(),
        finished_at: "2024-01-15T10:00:01Z".to_string(),
        workspace_root: "/workspace".to_string(),
        packages: vec![
            PackageReport {
                name: "lib-a".to_string(),
                version: "1.0.0".to_string(),
                manifest_path: "/workspace/lib-a/Cargo.toml".to_string(),
                status: PackageStatus::Skipped,
                skip_reason: Some("excluded by glob".to_string()),
                duration_ms: 0,
                command: vec![],
                engine: None,
                inferred_required_bump: None,
                failure_kind: None,
                baseline_error: None,
            },
            PackageReport {
                name: "lib-b".to_string(),
                version: "2.0.0".to_string(),
                manifest_path: "/workspace/lib-b/Cargo.toml".to_string(),
                status: PackageStatus::Skipped,
                skip_reason: Some("unchanged".to_string()),
                duration_ms: 0,
                command: vec![],
                engine: None,
                inferred_required_bump: None,
                failure_kind: None,
                baseline_error: None,
            },
        ],
        summary: Summary {
            total: 2,
            passed: 0,
            failed: 0,
            skipped: 2,
        },
    };

    let sarif = report_to_sarif(&report, None);
    assert!(sarif.runs[0].results.is_empty());
    assert!(sarif.runs[0].invocations[0].execution_successful);
}

#[test]
fn test_multiple_failures_with_same_rule() {
    // Multiple packages failing with same rule (Major bump required)
    let report = RunReport {
        semverguard_version: "0.1.0".to_string(),
        started_at: "2024-01-15T10:00:00Z".to_string(),
        finished_at: "2024-01-15T10:01:00Z".to_string(),
        workspace_root: "/workspace".to_string(),
        packages: vec![
            PackageReport {
                name: "lib-a".to_string(),
                version: "1.0.0".to_string(),
                manifest_path: "/workspace/lib-a/Cargo.toml".to_string(),
                status: PackageStatus::Failed,
                skip_reason: None,
                duration_ms: 100,
                command: vec!["cargo".to_string()],
                engine: None,
                inferred_required_bump: Some(RequiredBump::Major),
                failure_kind: Some(FailureKind::SemverViolation),
                baseline_error: None,
            },
            PackageReport {
                name: "lib-b".to_string(),
                version: "2.0.0".to_string(),
                manifest_path: "/workspace/lib-b/Cargo.toml".to_string(),
                status: PackageStatus::Failed,
                skip_reason: None,
                duration_ms: 150,
                command: vec!["cargo".to_string()],
                engine: None,
                inferred_required_bump: Some(RequiredBump::Major),
                failure_kind: Some(FailureKind::SemverViolation),
                baseline_error: None,
            },
        ],
        summary: Summary {
            total: 2,
            passed: 0,
            failed: 2,
            skipped: 0,
        },
    };

    let sarif = report_to_sarif(&report, None);
    assert_eq!(sarif.runs[0].results.len(), 2);

    // Both should have the same rule ID
    assert_eq!(sarif.runs[0].results[0].rule_id, RULE_SEMVER_MAJOR_REQUIRED);
    assert_eq!(sarif.runs[0].results[1].rule_id, RULE_SEMVER_MAJOR_REQUIRED);

    // But properties should differ
    let props0 = sarif.runs[0].results[0].properties.as_ref().unwrap();
    let props1 = sarif.runs[0].results[1].properties.as_ref().unwrap();
    assert_ne!(props0.package_name, props1.package_name);
}

#[test]
fn test_mixed_failure_kinds_in_single_report() {
    // Report with different failure kinds
    let report = RunReport {
        semverguard_version: "0.1.0".to_string(),
        started_at: "2024-01-15T10:00:00Z".to_string(),
        finished_at: "2024-01-15T10:01:00Z".to_string(),
        workspace_root: "/workspace".to_string(),
        packages: vec![
            PackageReport {
                name: "lib-major".to_string(),
                version: "1.0.0".to_string(),
                manifest_path: "/workspace/lib-major/Cargo.toml".to_string(),
                status: PackageStatus::Failed,
                skip_reason: None,
                duration_ms: 100,
                command: vec![],
                engine: None,
                inferred_required_bump: Some(RequiredBump::Major),
                failure_kind: Some(FailureKind::SemverViolation),
                baseline_error: None,
            },
            PackageReport {
                name: "lib-minor".to_string(),
                version: "1.0.0".to_string(),
                manifest_path: "/workspace/lib-minor/Cargo.toml".to_string(),
                status: PackageStatus::Failed,
                skip_reason: None,
                duration_ms: 100,
                command: vec![],
                engine: None,
                inferred_required_bump: Some(RequiredBump::Minor),
                failure_kind: Some(FailureKind::SemverViolation),
                baseline_error: None,
            },
            PackageReport {
                name: "lib-tool-error".to_string(),
                version: "1.0.0".to_string(),
                manifest_path: "/workspace/lib-tool-error/Cargo.toml".to_string(),
                status: PackageStatus::Failed,
                skip_reason: None,
                duration_ms: 50,
                command: vec![],
                engine: None,
                inferred_required_bump: None,
                failure_kind: Some(FailureKind::ToolError),
                baseline_error: None,
            },
            PackageReport {
                name: "lib-baseline".to_string(),
                version: "1.0.0".to_string(),
                manifest_path: "/workspace/lib-baseline/Cargo.toml".to_string(),
                status: PackageStatus::Failed,
                skip_reason: None,
                duration_ms: 50,
                command: vec![],
                engine: None,
                inferred_required_bump: None,
                failure_kind: Some(FailureKind::BaselineError),
                baseline_error: None,
            },
        ],
        summary: Summary {
            total: 4,
            passed: 0,
            failed: 4,
            skipped: 0,
        },
    };

    let sarif = report_to_sarif(&report, None);
    assert_eq!(sarif.runs[0].results.len(), 4);

    // Verify different rules are used
    let rule_ids: Vec<_> = sarif.runs[0]
        .results
        .iter()
        .map(|r| r.rule_id.as_str())
        .collect();
    assert!(rule_ids.contains(&RULE_SEMVER_MAJOR_REQUIRED));
    assert!(rule_ids.contains(&RULE_SEMVER_MINOR_REQUIRED));
    assert!(rule_ids.contains(&RULE_TOOL_ERROR));
    assert!(rule_ids.contains(&RULE_BASELINE_ERROR));
}

#[test]
fn test_special_characters_in_package_name() {
    // Package names with special characters should be properly escaped in JSON
    let report = RunReport {
        semverguard_version: "0.1.0".to_string(),
        started_at: "2024-01-15T10:00:00Z".to_string(),
        finished_at: "2024-01-15T10:01:00Z".to_string(),
        workspace_root: "/workspace".to_string(),
        packages: vec![PackageReport {
            name: "my_lib-core".to_string(), // underscore and hyphen
            version: "1.0.0".to_string(),
            manifest_path: "/workspace/my_lib-core/Cargo.toml".to_string(),
            status: PackageStatus::Failed,
            skip_reason: None,
            duration_ms: 100,
            command: vec![],
            engine: None,
            inferred_required_bump: Some(RequiredBump::Major),
            failure_kind: Some(FailureKind::SemverViolation),
            baseline_error: None,
        }],
        summary: Summary {
            total: 1,
            passed: 0,
            failed: 1,
            skipped: 0,
        },
    };

    let sarif = report_to_sarif(&report, None);
    let result = &sarif.runs[0].results[0];
    assert!(result.message.text.contains("my_lib-core"));
    assert_eq!(
        result.properties.as_ref().unwrap().package_name,
        Some("my_lib-core".to_string())
    );
}

#[test]
fn test_windows_path_handling() {
    // Test that Windows paths are converted to forward slashes
    let report = RunReport {
        semverguard_version: "0.1.0".to_string(),
        started_at: "2024-01-15T10:00:00Z".to_string(),
        finished_at: "2024-01-15T10:01:00Z".to_string(),
        workspace_root: "C:\\Users\\dev\\workspace".to_string(),
        packages: vec![PackageReport {
            name: "lib-a".to_string(),
            version: "1.0.0".to_string(),
            manifest_path: "C:\\Users\\dev\\workspace\\lib-a\\Cargo.toml".to_string(),
            status: PackageStatus::Failed,
            skip_reason: None,
            duration_ms: 100,
            command: vec![],
            engine: None,
            inferred_required_bump: Some(RequiredBump::Major),
            failure_kind: Some(FailureKind::SemverViolation),
            baseline_error: None,
        }],
        summary: Summary {
            total: 1,
            passed: 0,
            failed: 1,
            skipped: 0,
        },
    };

    let sarif = report_to_sarif(&report, None);
    let uri = &sarif.runs[0].results[0].locations[0].physical_location.artifact_location.uri;
    // URIs should not contain backslashes
    assert!(!uri.contains('\\'), "URIs should not contain backslashes");
    // Should use forward slashes in the URI
    assert!(uri.contains("Cargo.toml"));
    // Nowhere in the whole log is a backslash left (its debug text escapes each one)
    let dump = format!("{sarif:?}");
    assert!(!dump.contains("\\\\"), "the log should not contain backslashes");
    assert!(dump.contains("Cargo.toml"));
}

#[test]
fn test_patch_bump_level() {
    // Test that patch bump gets Note severity
    let report = RunReport {
        semverguard_version: "0.1.0".to_string(),
        started_at: "2024-01-15T10:00:00Z".to_string(),
        finished_at: "2024-01-15T10:01:00Z".to_string(),
        workspace_root: "/workspace".to_string(),
        packages: vec![PackageReport {
            name: "lib-patch".to_string(),
            version: "1.0.0".to_string(),
            manifest_path: "/workspace/lib-patch/Cargo.toml".to_string(),
            status: PackageStatus::Failed,
            skip_reason: None,
            duration_ms: 100,
            command: vec![],
            engine: None,
            inferred_required_bump: Some(RequiredBump::Patch),
            failure_kind: Some(FailureKind::SemverViolation),
            baseline_error: None,
        }],
        summary: Summary {
            total: 1,
            passed: 0,
            failed: 1,
            skipped: 0,
        },
    };

    let sarif = report_to_sarif(&report, None);
    let result = &sarif.runs[0].results[0];

    assert_eq!(result.rule_id, RULE_SEMVER_PATCH_REQUIRED);
    assert!(matches!(result.level, SarifLevel::Note));
    assert!(result.message.text.contains("patch version bump"));
}

#[test]
fn test_unknown_bump_level() {
    // Test that unknown bump gets breaking-change rule
    let report = RunReport {
        semverguard_version: "0.1.0".to_string(),
        started_at: "2024-01-15T10:00:00Z".to_string(),
        finished_at: "2024-01-15T10:01:00Z".to_string(),
        workspace_root: "/workspace".to_string(),
        packages: vec![PackageReport {
            name: "lib-unknown".to_string(),
            version: "1.0.0".to_string(),
            manifest_path: "/workspace/lib-unknown/Cargo.toml".to_string(),
            status: PackageStatus::Failed,
            skip_reason: None,
            duration_ms: 100,
            command: vec![],
            engine: None,
            inferred_required_bump: Some(RequiredBump::Unknown),
            failure_kind: Some(FailureKind::SemverViolation),
            baseline_error: None,
        }],
        summary: Summary {
            total: 1,
            passed: 0,
            failed: 1,
            skipped: 0,
        },
    };

    let sarif = report_to_sarif(&report, None);
    let result = &sarif.runs[0].results[0];

    assert_eq!(result.rule_id, RULE_SEMVER_BREAKING);
    assert!(matches!(result.level, SarifLevel::Error));
}


