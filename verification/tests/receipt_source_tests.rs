use semverguard::model::{BaselineConfig, VerdictStatus};
use semverguard::receipt::{ArtifactIndex, RunInfo, SensorReportV1, ToolInfo, Verdict};
use semverguard::receipt_source::{is_reserved, normalize_path, InMemoryReceiptSource};

fn stub_receipt(schema: &str) -> SensorReportV1 {
    SensorReportV1 {
        schema: schema.to_string(),
        tool: ToolInfo {
            name: "test".to_string(),
            version: "0.1.0".to_string(),
            repository_url: None,
        },
        run: RunInfo {
            started_at: "2024-01-01T00:00:00Z".to_string(),
            finished_at: "2024-01-01T00:00:01Z".to_string(),
            duration_ms: 1000,
            workspace_root: "/workspace".to_string(),
            baseline: BaselineConfig::default(),
            capabilities: None,
        },
        verdict: Verdict { status: VerdictStatus::Pass, reasons: vec![] },
        findings: vec![],
        data: None,
        artifacts: ArtifactIndex {
            report_json: "report.json".to_string(),
            comment_md: "comment.md".to_string(),
            sarif_json: None,
            raw_logs: vec![],
        },
    }
}

#[test]
fn test_normalize_backslashes() {
    assert_eq!(
        normalize_path(r"artifacts\semverguard\report.json"),
        "artifacts/semverguard/report.json"
    );
}

#[test]
fn test_normalize_forward_slashes_unchanged() {
    assert_eq!(
        normalize_path("artifacts/semverguard/report.json"),
        "artifacts/semverguard/report.json"
    );
}

#[test]
fn test_normalize_windows_extended_length_prefix() {
    assert_eq!(
        normalize_path(r"\\?\C:\repo\artifacts\semverguard\report.json"),
        "C:/repo/artifacts/semverguard/report.json"
    );
}

#[test]
fn test_normalize_windows_extended_forward_slash_prefix() {
    assert_eq!(
        normalize_path(r"//?/C:\repo\artifacts\semverguard\report.json"),
        "C:/repo/artifacts/semverguard/report.json"
    );
}

#[test]
fn test_reserved_buildfix_relative() {
    assert!(is_reserved("artifacts/buildfix/report.json"));
}

#[test]
fn test_reserved_buildfix_absolute() {
    assert!(is_reserved("/repo/artifacts/buildfix/report.json"));
}

#[test]
fn test_reserved_buildfix_dot_relative() {
    assert!(is_reserved("./artifacts/buildfix/report.json"));
}

#[test]
fn test_reserved_cockpit_relative() {
    assert!(is_reserved("artifacts/cockpit/report.json"));
}

#[test]
fn test_reserved_cockpit_absolute() {
    assert!(is_reserved("/repo/artifacts/cockpit/report.json"));
}

#[test]
fn test_not_reserved_semverguard() {
    assert!(!is_reserved("artifacts/semverguard/report.json"));
}

#[test]
fn test_not_reserved_buildfixer() {
    assert!(!is_reserved("artifacts/buildfixer/report.json"));
}

#[test]
fn test_reserved_windows_extended_path_after_normalize() {
    let norm = normalize_path(r"\\?\C:\repo\artifacts\buildfix\report.json");
    assert!(is_reserved(&norm));
}

#[test]
fn test_reserved_backslash_path_after_normalize() {
    let norm = normalize_path(r"artifacts\cockpit\report.json");
    assert!(is_reserved(&norm));
}

#[test]
fn test_empty_source_returns_empty() {
    let source = InMemoryReceiptSource::new();
    assert!(source.is_empty());
    assert_eq!(source.into_receipts().len(), 0);
}

#[test]
fn test_filters_buildfix_and_cockpit() {
    let mut source = InMemoryReceiptSource::new();
    source.push("artifacts/semverguard/report.json", stub_receipt("sensor.report.v1"));
    source.push("artifacts/buildfix/report.json", stub_receipt("sensor.report.v1"));
    source.push("artifacts/cockpit/report.json", stub_receipt("sensor.report.v1"));
    let receipts = source.into_receipts();
    assert_eq!(receipts.len(), 1);
    assert_eq!(receipts[0].path, "artifacts/semverguard/report.json");
}

#[test]
fn test_filters_windows_backslash_paths() {
    let mut source = InMemoryReceiptSource::new();
    source.push(r"artifacts\semverguard\report.json", stub_receipt("sensor.report.v1"));
    source.push(r"artifacts\buildfix\report.json", stub_receipt("sensor.report.v1"));
    let receipts = source.into_receipts();
    assert_eq!(receipts.len(), 1);
}

#[test]
fn test_filters_windows_extended_length_paths() {
    let mut source = InMemoryReceiptSource::new();
    source.push(r"\\?\C:\repo\artifacts\buildfix\report.json", stub_receipt("sensor.report.v1"));
    source.push(r"\\?\C:\repo\artifacts\semverguard\report.json", stub_receipt("sensor.report.v1"));
    let receipts = source.into_receipts();
    assert_eq!(receipts.len(), 1);
    assert_eq!(receipts[0].path, r"\\?\C:\repo\artifacts\semverguard\report.json");
}

#[test]
fn test_sorts_by_normalized_path() {
    let mut source = InMemoryReceiptSource::new();
    source.push("artifacts/zeta/report.json", stub_receipt("sensor.report.v1"));
    source.push("artifacts/alpha/report.json", stub_receipt("sensor.report.v1"));
    source.push("artifacts/mu/report.json", stub_receipt("sensor.report.v1"));
    let receipts = source.into_receipts();
    assert_eq!(receipts.len(), 3);
    assert_eq!(receipts[0].path, "artifacts/alpha/report.json");
    assert_eq!(receipts[1].path, "artifacts/mu/report.json");
    assert_eq!(receipts[2].path, "artifacts/zeta/report.json");
}

#[test]
fn test_sorts_by_normalized_path_mixed_slashes() {
    let mut source = InMemoryReceiptSource::new();
    source.push(r"artifacts\zeta\report.json", stub_receipt("sensor.report.v1"));
    source.push(r"artifacts/alpha/report.json", stub_receipt("sensor.report.v1"));
    let receipts = source.into_receipts();
    assert_eq!(receipts.len(), 2);
    assert_eq!(receipts[0].path, "artifacts/alpha/report.json");
    assert_eq!(receipts[1].path, r"artifacts\zeta\report.json");
}

#[test]
fn test_filters_absolute_linux_paths() {
    let mut source = InMemoryReceiptSource::new();
    source.push("/home/ci/repo/artifacts/buildfix/report.json", stub_receipt("sensor.report.v1"));
    source.push("/home/ci/repo/artifacts/semverguard/report.json", stub_receipt("sensor.report.v1"));
    let receipts = source.into_receipts();
    assert_eq!(receipts.len(), 1);
}

#[test]
fn test_preserves_original_path_in_entry() {
    let mut source = InMemoryReceiptSource::new();
    let original = r"\\?\C:\repo\artifacts\semverguard\report.json";
    source.push(original, stub_receipt("sensor.report.v1"));
    let receipts = source.into_receipts();
    assert_eq!(receipts.len(), 1);
    assert_eq!(receipts[0].path, original);
}

#[test]
fn test_len_counts_before_filtering() {
    let mut source = InMemoryReceiptSource::new();
    source.push("artifacts/buildfix/report.json", stub_receipt("sensor.report.v1"));
    source.push("artifacts/semverguard/report.json", stub_receipt("sensor.report.v1"));
    assert_eq!(source.len(), 2);
    let receipts = source.into_receipts();
    assert_eq!(receipts.len(), 1);
}

#[test]
fn test_equal_normalized_paths_keep_push_order() {
    let mut source = InMemoryReceiptSource::new();
    source.push(r"a\report.json", stub_receipt("first"));
    source.push("a/report.json", stub_receipt("second"));
    let receipts = source.into_receipts();
    assert_eq!(receipts.len(), 2);
    assert_eq!(receipts[0].receipt.schema, "first");
    assert_eq!(receipts[1].receipt.schema, "second");
}
