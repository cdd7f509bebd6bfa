use std::cell::RefCell;
use std::rc::Rc;

use semverguard::error::SemverguardError;
use semverguard::model::{
    OutputFormat, RequiredBump, RunMode, ScopeMode, SemverCheckOutput, SemverCheckRequest,
    SemverguardConfig, VerdictStatus, WorkspaceMetadata, WorkspacePackage,
};
use semverguard::pipeline::{run_with_adapters, PipelineOptions, RootState};
use semverguard::receipt::CHECK_TOOL;
use semverguard::runner::{
    GitProvider, ProgressCallback, ProgressEvent, SemverEngine, WorkspaceProvider,
};

struct MockWorkspaceProvider {
    metadata: WorkspaceMetadata,
}

impl WorkspaceProvider for MockWorkspaceProvider {
    fn load(&self, _workspace_root: &str) -> Result<WorkspaceMetadata, SemverguardError> {
        Ok(self.metadata.clone())
    }
}

struct FailingWorkspaceProvider {
    message: String,
}

impl WorkspaceProvider for FailingWorkspaceProvider {
    fn load(&self, _workspace_root: &str) -> Result<WorkspaceMetadata, SemverguardError> {
        Err(SemverguardError::Workspace(self.message.clone()))
    }
}

struct NoGit;

impl GitProvider for NoGit {
    fn changed_paths(&self, _r: &str, _b: &str, _h: &str) -> Result<Vec<String>, SemverguardError> {
        Ok(vec![])
    }
}

enum EngineOutcome {
    Success,
    SemverFail,
    Error,
}

struct MockEngine {
    outcome: EngineOutcome,
}

impl SemverEngine for MockEngine {
    fn check(
        &self,
        _request: SemverCheckRequest,
    ) -> Result<(Vec<String>, SemverCheckOutput), SemverguardError> {
        match self.outcome {
            EngineOutcome::Success => Ok((
                vec!["cargo".to_string(), "semver-checks".to_string()],
                SemverCheckOutput {
                    exit_code: Some(0),
                    success: true,
                    stdout: "ok".to_string(),
                    stderr: String::new(),
                    required_bump: None,
                },
            )),
            EngineOutcome::SemverFail => Ok((
                vec!["cargo".to_string(), "semver-checks".to_string()],
                SemverCheckOutput {
                    exit_code: Some(1),
                    success: false,
                    stdout: String::new(),
                    stderr: "breaking change".to_string(),
                    required_bump: Some(RequiredBump::Major),
                },
            )),
            EngineOutcome::Error => Err(SemverguardError::Engine("engine failed".to_string())),
        }
    }
}

#[derive(Clone, Default)]
struct RecordingProgress {
    events: Rc<RefCell<Vec<ProgressEvent>>>,
}

impl ProgressCallback for RecordingProgress {
    fn on_progress(&self, event: ProgressEvent) {
        self.events.borrow_mut().push(event);
    }
}

fn basic_metadata(workspace_root: &str) -> WorkspaceMetadata {
    let pkg_root = format!("{workspace_root}/crates/my-crate");
    WorkspaceMetadata {
        workspace_root: workspace_root.to_string(),
        packages: vec![WorkspacePackage {
            name: "my-crate".to_string(),
            version: "1.0.0".to_string(),
            manifest_path: format!("{pkg_root}/Cargo.toml"),
            package_root: pkg_root,
            publishable: true,
            has_lib: true,
        }],
    }
}

fn base_config() -> SemverguardConfig {
    let mut config = SemverguardConfig::default();
    config.mode = RunMode::Release;
    config.scope.mode = ScopeMode::Workspace;
    config
}

fn options(config: SemverguardConfig, tool_version: Option<&str>) -> PipelineOptions<RecordingProgress> {
    PipelineOptions {
        workspace_root: "/ws".to_string(),
        config,
        sarif: false,
        tool_version: tool_version.map(|v| v.to_string()),
        progress: None,
    }
}

#[test]
fn test_run_with_adapters_non_receipt_uses_report_exit_code() {
    let workspace = MockWorkspaceProvider { metadata: basic_metadata("/ws") };
    let engine = MockEngine { outcome: EngineOutcome::SemverFail };
    let mut config = base_config();
    config.output.format = OutputFormat::Text;
    let options = options(config, Some("0.0.0-test"));

    let result =
        run_with_adapters(&options, RootState::Directory, &workspace, None::<&NoGit>, &engine, RunMode::Release).unwrap();
    assert_eq!(result.exit_code, 2);
    let report = result.report.as_ref().unwrap();
    assert_eq!(report.summary.failed, 1);
    assert_eq!(result.receipt.verdict.status, VerdictStatus::Fail);
    assert_eq!(result.receipt.tool.version, "0.0.0-test");
}

#[test]
fn test_run_with_adapters_non_receipt_tool_error_exit_code() {
    let workspace = MockWorkspaceProvider { metadata: basic_metadata("/ws") };
    let engine = MockEngine { outcome: EngineOutcome::Error };
    let mut config = base_config();
    config.output.format = OutputFormat::Text;
    let options = options(config, Some("0.0.0-test"));

    let result =
        run_with_adapters(&options, RootState::Directory, &workspace, None::<&NoGit>, &engine, RunMode::Release).unwrap();
    assert_eq!(result.exit_code, 1);
    let report = result.report.as_ref().unwrap();
    assert_eq!(report.summary.failed, 1);
    assert_eq!(result.receipt.verdict.status, VerdictStatus::Fail);
}

#[test]
fn test_run_with_adapters_receipt_success_records_progress() {
    let workspace = MockWorkspaceProvider { metadata: basic_metadata("/ws") };
    let engine = MockEngine { outcome: EngineOutcome::Success };
    let mut config = base_config();
    config.output.format = OutputFormat::Receipt;
    let recorder = RecordingProgress::default();
    let mut options = options(config, Some("0.0.0-test"));
    options.progress = Some(recorder.clone());

    let result =
        run_with_adapters(&options, RootState::Directory, &workspace, None::<&NoGit>, &engine, RunMode::Release).unwrap();
    assert!(result.report.is_some());
    assert_eq!(result.exit_code, 0);
    assert_eq!(result.receipt.verdict.status, VerdictStatus::Pass);

    let events = recorder.events.borrow();
    assert!(events.iter().any(|e| matches!(e, ProgressEvent::TotalPackages { total: 1 })));
    assert!(events.iter().any(|e| matches!(
        e,
        ProgressEvent::Finished { passed: 1, failed: 0, skipped: 0 }
    )));
}

#[test]
fn test_run_with_adapters_receipt_error_builds_tool_receipt() {
    let workspace = FailingWorkspaceProvider { message: "boom".to_string() };
    let engine = MockEngine { outcome: EngineOutcome::Success };
    let mut config = base_config();
    config.output.format = OutputFormat::Receipt;
    let options = options(config, None);

    let result =
        run_with_adapters(&options, RootState::Directory, &workspace, None::<&NoGit>, &engine, RunMode::Release).unwrap();
    assert!(result.report.is_none());
    assert_eq!(result.exit_code, 1);
    assert_eq!(result.receipt.verdict.status, VerdictStatus::Fail);
    assert!(result.receipt.findings.iter().any(|f| f.check_id == CHECK_TOOL));
}

#[test]
fn test_run_with_adapters_non_receipt_propagates_error() {
    let workspace = FailingWorkspaceProvider { message: "load failed".to_string() };
    let engine = MockEngine { outcome: EngineOutcome::Success };
    let mut config = base_config();
    config.output.format = OutputFormat::Text;
    let options = options(config, None);

    let err = run_with_adapters(&options, RootState::Directory, &workspace, None::<&NoGit>, &engine, RunMode::Release)
        .err()
        .unwrap();
    assert!(err.message().contains("workspace error"));
    assert!(err.message().contains("load failed"));
}

#[test]
fn run_with_adapters_missing_root_fails_even_in_receipt_mode() {
    let workspace = MockWorkspaceProvider { metadata: basic_metadata("/ws") };
    let engine = MockEngine { outcome: EngineOutcome::Success };
    let mut config = base_config();
    config.output.format = OutputFormat::Receipt;
    let options = options(config, None);

    let err = run_with_adapters(&options, RootState::Missing, &workspace, None::<&NoGit>, &engine, RunMode::Release)
        .err()
        .unwrap();
    assert!(matches!(err, SemverguardError::MissingPath(_)));
    assert!(err.message().contains("workspace root does not exist: /ws"));
}

#[test]
fn run_with_adapters_root_that_is_not_a_directory_fails() {
    let workspace = MockWorkspaceProvider { metadata: basic_metadata("/ws") };
    let engine = MockEngine { outcome: EngineOutcome::Success };
    let mut config = base_config();
    config.output.format = OutputFormat::Text;
    let options = options(config, None);

    let err = run_with_adapters(&options, RootState::NotDirectory, &workspace, None::<&NoGit>, &engine, RunMode::Release)
        .err()
        .unwrap();
    assert!(err.message().contains("workspace root is not a directory: /ws"));
}
