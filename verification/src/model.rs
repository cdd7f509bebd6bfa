//! Data model shared by the runner, the policies and the report builders.
//!
//! Paths are carried as strings with `/` separators; the library never touches
//! the file system itself.
use vstd::prelude::*;

verus! {

/// The lane a run belongs to.
#[derive(Debug, Clone, Copy, PartialEq, Eq, Structural)]
pub enum RunMode {
    /// Detect the lane from the CI environment.
    Auto,
    /// Pull request lane: lenient towards baseline errors.
    Pr,
    /// Release lane: strict enforcement.
    Release,
    /// Cockpit lane: always write a receipt.
    Cockpit,
}

impl RunMode {
    /// Whether this is the cockpit lane.
    pub open spec fn spec_is_cockpit(&self) -> bool {
        *self == RunMode::Cockpit
    }

    /// Whether this is the cockpit lane.
    #[verifier::when_used_as_spec(spec_is_cockpit)]
    pub fn is_cockpit(&self) -> (r: bool)
        ensures
            r == self.spec_is_cockpit(),
    {
        matches!(self, RunMode::Cockpit)
    }

    /// Whether baseline failures are downgraded to warnings in this lane.
    pub open spec fn spec_baseline_errors_are_warnings(&self) -> bool {
        self == RunMode::Pr || *self == RunMode::Cockpit
    }

    /// Whether baseline failures are downgraded to warnings in this lane.
    #[verifier::when_used_as_spec(spec_baseline_errors_are_warnings)]
    pub fn baseline_errors_are_warnings(&self) -> (r: bool)
        ensures
            r == self.spec_baseline_errors_are_warnings(),
    {
        matches!(self, RunMode::Pr | RunMode::Cockpit)
    }

    /// The lane after auto-detection, given whether the CI environment points at a release ref.
    pub open spec fn spec_resolve(self, release_ref: bool) -> RunMode {
        match self {
            RunMode::Auto => if release_ref {
                RunMode::Release
            } else {
                RunMode::Pr
            },
            _ => self,
        }
    }

    /// Resolves `Auto` to a concrete lane; `release_ref` says whether the CI
    /// environment points at a tag or release branch.
    #[verifier::when_used_as_spec(spec_resolve)]
    pub fn resolve(self, release_ref: bool) -> (r: RunMode)
        ensures
            r == self.spec_resolve(release_ref),
            r != RunMode::Auto,
    {
        match self {
            RunMode::Auto => if release_ref {
                RunMode::Release
            } else {
                RunMode::Pr
            },
            _ => self,
        }
    }
}

/// Where the baseline comes from.
#[derive(Debug, Clone, Copy, PartialEq, Eq, Structural)]
pub enum BaselineKind {
    /// A git revision.
    Git,
    /// A version published on crates.io.
    CratesIo,
}

/// Which packages are considered.
#[derive(Debug, Clone, Copy, PartialEq, Eq, Structural)]
pub enum ScopeMode {
    /// Every eligible workspace package.
    Workspace,
    /// Only packages changed relative to the baseline revision.
    Changed,
}

/// Output format of a run.
#[derive(Debug, Clone, Copy, PartialEq, Eq, Structural)]
pub enum OutputFormat {
    /// Human-readable text.
    Text,
    /// JSON report.
    Json,
    /// Text and JSON.
    Both,
    /// SARIF 2.1.0.
    Sarif,
    /// Cockpit receipt (sensor.report.v1).
    Receipt,
}

/// What to do with a baseline error.
#[derive(Debug, Clone, Copy, PartialEq, Eq, Structural)]
pub enum ErrorAction {
    /// Fail the package.
    Fail,
    /// Report a warning and skip the package.
    Warn,
    /// Skip the package silently.
    Skip,
}

/// Classification of a failed check.
#[derive(Debug, Clone, Copy, PartialEq, Eq, Structural)]
pub enum FailureKind {
    /// The engine found a SemVer violation.
    SemverViolation,
    /// The baseline could not be resolved.
    BaselineError,
    /// The tool itself failed.
    ToolError,
    /// Unclassifiable failure.
    Unknown,
}

/// Outcome of one package.
#[derive(Debug, Clone, Copy, PartialEq, Eq, Structural)]
pub enum PackageStatus {
    /// Checked and passed.
    Passed,
    /// Checked and failed.
    Failed,
    /// Not checked.
    Skipped,
}

/// Version bump the engine says is required.
#[derive(Debug, Clone, Copy, PartialEq, Eq, Structural)]
pub enum RequiredBump {
    /// Major bump.
    Major,
    /// Minor bump.
    Minor,
    /// Patch bump.
    Patch,
    /// The engine did not say.
    Unknown,
}

/// Overall verdict of a receipt.
#[derive(Debug, Clone, Copy, PartialEq, Eq, Structural)]
pub enum VerdictStatus {
    /// Everything passed.
    Pass,
    /// Only warnings.
    Warn,
    /// At least one failure.
    Fail,
    /// Every package was skipped.
    Skip,
}

/// Severity of a finding.
#[derive(Debug, Clone, Copy, PartialEq, Eq, Structural)]
pub enum FindingLevel {
    /// Error.
    Error,
    /// Warning.
    Warning,
    /// Informational.
    Info,
}

impl FindingLevel {
    /// Rank used for ordering findings: errors first.
    pub open spec fn spec_severity_rank(&self) -> u8 {
        match self {
            FindingLevel::Error => 0,
            FindingLevel::Warning => 1,
            FindingLevel::Info => 2,
        }
    }

    /// Rank used for ordering findings: errors first.
    #[verifier::when_used_as_spec(spec_severity_rank)]
    pub fn severity_rank(&self) -> (r: u8)
        ensures
            r == self.spec_severity_rank(),
    {
        match self {
            FindingLevel::Error => 0,
            FindingLevel::Warning => 1,
            FindingLevel::Info => 2,
        }
    }
}

/// Status of a run capability (git, baseline).
#[derive(Debug, Clone, Copy, PartialEq, Eq, Structural)]
pub enum CapabilityStatus {
    /// The capability was present.
    Available,
    /// The capability was missing.
    Unavailable,
    /// The capability was not needed.
    Skipped,
}

/// Detailed cause of a baseline error.
#[derive(Debug, PartialEq, Eq)]
pub enum BaselineErrorCause {
    /// The repository is a shallow clone.
    ShallowClone { detail: Option<String> },
    /// The baseline revision does not exist.
    RevisionNotFound { rev: String },
    /// The crate does not exist in the baseline.
    CrateAbsentFromBaseline { crate_name: String },
    /// No merge base between base and head.
    MergeBaseNotFound { base: String, head: String },
    /// Rustdoc could not be generated for the baseline.
    RustdocGenerationFailed { detail: Option<String> },
    /// The crate was never published.
    NotPublished { crate_name: String, version: Option<String> },
    /// Any other baseline failure.
    Other { message: String },
}

/// Output of one engine invocation.
#[derive(Debug)]
pub struct SemverCheckOutput {
    /// Process exit code, if any.
    pub exit_code: Option<i32>,
    /// Whether the engine reported success.
    pub success: bool,
    /// Captured standard output.
    pub stdout: String,
    /// Captured standard error.
    pub stderr: String,
    /// Bump inferred from the output.
    pub required_bump: Option<RequiredBump>,
}

/// What the runner asks the engine to check.
#[derive(Debug)]
pub struct SemverCheckRequest {
    /// Workspace root.
    pub workspace_root: String,
    /// `cargo` binary to use.
    pub cargo_bin: Option<String>,
    /// Manifest of the package under check.
    pub manifest_path: String,
    /// Baseline configuration.
    pub baseline: BaselineConfig,
    /// Feature selection.
    pub features: FeaturesConfig,
    /// Extra engine arguments.
    pub extra_args: Vec<String>,
    /// Timeout in seconds.
    pub timeout: Option<u64>,
}

/// Result for one package.
#[derive(Debug)]
pub struct PackageReport {
    /// Package name.
    pub name: String,
    /// Package version.
    pub version: String,
    /// Manifest path.
    pub manifest_path: String,
    /// Outcome.
    pub status: PackageStatus,
    /// Why it was skipped (or why it failed without engine output).
    pub skip_reason: Option<String>,
    /// Duration of the check.
    pub duration_ms: u128,
    /// Engine command line.
    pub command: Vec<String>,
    /// Engine output, if the engine ran.
    pub engine: Option<SemverCheckOutput>,
    /// Bump inferred by the engine.
    pub inferred_required_bump: Option<RequiredBump>,
    /// Classification of a failure.
    pub failure_kind: Option<FailureKind>,
    /// Baseline error details.
    pub baseline_error: Option<BaselineErrorCause>,
}

/// Counts over the package reports.
#[derive(Debug, Clone, Copy, PartialEq, Eq, Structural)]
pub struct Summary {
    /// Number of packages.
    pub total: usize,
    /// Passed packages.
    pub passed: usize,
    /// Failed packages.
    pub failed: usize,
    /// Skipped packages.
    pub skipped: usize,
}

impl Summary {
    /// A run succeeded overall when nothing failed.
    pub open spec fn spec_overall_success(&self) -> bool {
        self.failed == 0
    }

    /// A run succeeded overall when nothing failed.
    #[verifier::when_used_as_spec(spec_overall_success)]
    pub fn overall_success(&self) -> (r: bool)
        ensures
            r == self.spec_overall_success(),
    {
        self.failed == 0
    }
}

/// A complete run report.
#[derive(Debug)]
pub struct RunReport {
    /// Tool version.
    pub semverguard_version: String,
    /// RFC 3339 start time.
    pub started_at: String,
    /// RFC 3339 finish time.
    pub finished_at: String,
    /// Workspace root.
    pub workspace_root: String,
    /// Per-package results.
    pub packages: Vec<PackageReport>,
    /// Counts.
    pub summary: Summary,
}

/// A workspace member as reported by cargo metadata.
#[derive(Debug)]
pub struct WorkspacePackage {
    /// Package name.
    pub name: String,
    /// Package version.
    pub version: String,
    /// Manifest path.
    pub manifest_path: String,
    /// Directory of the package.
    pub package_root: String,
    /// Whether the package can be published.
    pub publishable: bool,
    /// Whether the package has a library target.
    pub has_lib: bool,
}

/// Workspace metadata.
#[derive(Debug)]
pub struct WorkspaceMetadata {
    /// Workspace root.
    pub workspace_root: String,
    /// Members.
    pub packages: Vec<WorkspacePackage>,
}

/// A package that would be checked.
#[derive(Debug)]
pub struct ListedPackage {
    /// Package name.
    pub name: String,
    /// Package version.
    pub version: String,
    /// Manifest path.
    pub manifest_path: String,
}

/// A package that would be skipped.
#[derive(Debug)]
pub struct SkippedPackage {
    /// Package name.
    pub name: String,
    /// Package version.
    pub version: String,
    /// Manifest path.
    pub manifest_path: String,
    /// Reason for skipping.
    pub reason: String,
}

/// Result of listing packages without running checks.
#[derive(Debug)]
pub struct ListResult {
    /// Workspace root.
    pub workspace_root: String,
    /// Packages that would be checked.
    pub would_check: Vec<ListedPackage>,
    /// Packages that would be skipped.
    pub would_skip: Vec<SkippedPackage>,
}

/// Per-cause baseline error actions.
#[derive(Debug, Clone, Copy, PartialEq, Eq, Structural)]
pub struct BaselineErrorPolicy {
    /// Crate absent from the baseline.
    pub new_crate: ErrorAction,
    /// Revision or merge base not found, and unclassified causes.
    pub missing_revision: ErrorAction,
    /// Shallow clone.
    pub shallow_clone: ErrorAction,
    /// Rustdoc generation failure.
    pub rustdoc_failure: ErrorAction,
    /// Crate never published.
    pub not_published: ErrorAction,
}

/// Baseline selection.
#[derive(Debug)]
pub struct BaselineConfig {
    /// Where the baseline comes from.
    pub kind: BaselineKind,
    /// Git revision.
    pub rev: Option<String>,
    /// crates.io version.
    pub version: Option<String>,
    /// Directory holding the baseline sources.
    pub root: Option<String>,
    /// Prebuilt baseline rustdoc JSON.
    pub rustdoc: Option<String>,
    /// Baseline error actions.
    pub on_error: BaselineErrorPolicy,
}

/// Package scope.
#[derive(Debug)]
pub struct ScopeConfig {
    /// Workspace or changed packages.
    pub mode: ScopeMode,
    /// Name globs to includes (empty: all).
    pub includes: Vec<String>,
    /// Name globs to excludes.
    pub excludes: Vec<String>,
    /// Explicit package names; when non-empty they replace the globs.
    pub explicit_packages: Vec<String>,
    /// Skip packages with `publish = false`.
    pub skip_publish_false: bool,
    /// Skip packages without a library target.
    pub skip_no_lib: bool,
}

/// Engine settings.
#[derive(Debug)]
pub struct EngineConfig {
    /// `cargo` binary.
    pub cargo_bin: Option<String>,
    /// Extra engine arguments.
    pub extra_args: Vec<String>,
    /// Stop after the first failing package.
    pub fail_fast: bool,
    /// Run checks in parallel.
    pub parallel: bool,
    /// Do not run checks.
    pub dry_run: bool,
}

/// Feature selection for checks.
#[derive(Debug)]
pub struct FeaturesConfig {
    /// Check with all features.
    pub all_features: bool,
    /// Check with the default features.
    pub default_features: bool,
    /// Check only the listed features.
    pub only_explicit_features: bool,
    /// Listed features.
    pub features: Vec<String>,
    /// Features enabled only for the baseline.
    pub baseline_features: Vec<String>,
    /// Features enabled only for the current version.
    pub current_features: Vec<String>,
}

/// Output settings.
#[derive(Debug)]
pub struct OutputConfig {
    /// Output format.
    pub format: OutputFormat,
    /// Where the JSON or SARIF goes.
    pub json_path: Option<String>,
    /// Pretty-print JSON.
    pub pretty_json: bool,
    /// Receipt artifacts directory.
    pub artifacts_dir: String,
    /// Treat warnings as failures.
    pub warn_as_fail: bool,
    /// Color choice.
    pub color: String,
    /// Verbosity.
    pub verbosity: String,
}

/// A waiver for a finding fingerprint.
#[derive(Debug)]
pub struct WaiverEntry {
    /// Fingerprint of the waived finding.
    pub fingerprint: String,
    /// Why it is waived.
    pub reason: String,
    /// Tracking ticket.
    pub ticket: Option<String>,
    /// Expiry date (YYYY-MM-DD).
    pub expires: Option<String>,
}

/// The whole configuration.
#[derive(Debug)]
pub struct SemverguardConfig {
    /// Lane.
    pub mode: RunMode,
    /// Baseline.
    pub baseline: BaselineConfig,
    /// Scope.
    pub scope: ScopeConfig,
    /// Engine.
    pub engine: EngineConfig,
    /// Features.
    pub features: FeaturesConfig,
    /// Output.
    pub output: OutputConfig,
    /// Waivers.
    pub waivers: Vec<WaiverEntry>,
}

impl BaselineErrorPolicy {
    /// The default actions: new crates and unpublished crates warn, everything else fails.
    pub open spec fn spec_default() -> BaselineErrorPolicy {
        BaselineErrorPolicy {
            new_crate: ErrorAction::Warn,
            missing_revision: ErrorAction::Fail,
            shallow_clone: ErrorAction::Fail,
            rustdoc_failure: ErrorAction::Fail,
            not_published: ErrorAction::Warn,
        }
    }
}

impl Default for BaselineErrorPolicy {
    fn default() -> (r: Self)
        ensures
            r == BaselineErrorPolicy::spec_default(),
    {
        BaselineErrorPolicy {
            new_crate: ErrorAction::Warn,
            missing_revision: ErrorAction::Fail,
            shallow_clone: ErrorAction::Fail,
            rustdoc_failure: ErrorAction::Fail,
            not_published: ErrorAction::Warn,
        }
    }
}

impl Default for BaselineConfig {
    fn default() -> (r: Self)
        ensures
            r.kind == BaselineKind::CratesIo,
            r.rev is None,
            r.version is None,
            r.root is None,
            r.rustdoc is None,
            r.on_error == BaselineErrorPolicy::spec_default(),
    {
        BaselineConfig {
            kind: BaselineKind::CratesIo,
            rev: None,
            version: None,
            root: None,
            rustdoc: None,
            on_error: BaselineErrorPolicy::default(),
        }
    }
}

impl Default for ScopeConfig {
    fn default() -> (r: Self)
        ensures
            r.mode == ScopeMode::Workspace,
            r.includes@.len() == 0,
            r.excludes@.len() == 0,
            r.explicit_packages@.len() == 0,
            r.skip_publish_false,
            r.skip_no_lib,
    {
        ScopeConfig {
            mode: ScopeMode::Workspace,
            includes: Vec::new(),
            excludes: Vec::new(),
            explicit_packages: Vec::new(),
            skip_publish_false: true,
            skip_no_lib: true,
        }
    }
}

impl Default for EngineConfig {
    fn default() -> (r: Self)
        ensures
            r.cargo_bin is None,
            r.extra_args@.len() == 0,
            !r.fail_fast,
            r.parallel,
            !r.dry_run,
    {
        EngineConfig {
            cargo_bin: None,
            extra_args: Vec::new(),
            fail_fast: false,
            parallel: true,
            dry_run: false,
        }
    }
}

impl Default for FeaturesConfig {
    fn default() -> (r: Self)
        ensures
            !r.all_features,
            r.default_features,
            !r.only_explicit_features,
            r.features@.len() == 0,
            r.baseline_features@.len() == 0,
            r.current_features@.len() == 0,
    {
        FeaturesConfig {
            all_features: false,
            default_features: true,
            only_explicit_features: false,
            features: Vec::new(),
            baseline_features: Vec::new(),
            current_features: Vec::new(),
        }
    }
}

impl Default for OutputConfig {
    fn default() -> (r: Self)
        ensures
            r.format == OutputFormat::Text,
            r.json_path is None,
            r.pretty_json,
            r.artifacts_dir@ == "artifacts/semverguard"@,
            !r.warn_as_fail,
            r.color@ == "auto"@,
            r.verbosity@ == "normal"@,
    {
        OutputConfig {
            format: OutputFormat::Text,
            json_path: None,
            pretty_json: true,
            artifacts_dir: String::from_str("artifacts/semverguard"),
            warn_as_fail: false,
            color: String::from_str("auto"),
            verbosity: String::from_str("normal"),
        }
    }
}

impl Default for SemverguardConfig {
    fn default() -> (r: Self)
        ensures
            r.mode == RunMode::Auto,
            r.baseline.kind == BaselineKind::CratesIo,
            r.baseline.rev is None,
            r.baseline.version is None,
            r.baseline.root is None,
            r.baseline.rustdoc is None,
            r.baseline.on_error == BaselineErrorPolicy::spec_default(),
            r.scope.mode == ScopeMode::Workspace,
            r.scope.includes@.len() == 0,
            r.scope.excludes@.len() == 0,
            r.scope.explicit_packages@.len() == 0,
            r.scope.skip_publish_false,
            r.scope.skip_no_lib,
            r.engine.cargo_bin is None,
            r.engine.extra_args@.len() == 0,
            !r.engine.fail_fast,
            r.output.format == OutputFormat::Text,
            r.output.json_path is None,
            r.output.pretty_json,
            r.output.artifacts_dir@ == "artifacts/semverguard"@,
            !r.output.warn_as_fail,
            !r.features.all_features,
            !r.features.only_explicit_features,
            r.features.features@.len() == 0,
            r.waivers@.len() == 0,
    {
        SemverguardConfig {
            mode: RunMode::Auto,
            baseline: BaselineConfig::default(),
            scope: ScopeConfig::default(),
            engine: EngineConfig::default(),
            features: FeaturesConfig::default(),
            output: OutputConfig::default(),
            waivers: Vec::new(),
        }
    }
}

} // verus!

verus! {

impl View for FeaturesConfig {
    type V = (bool, bool, bool, Seq<String>, Seq<String>, Seq<String>);

    open spec fn view(&self) -> Self::V {
        (
            self.all_features,
            self.default_features,
            self.only_explicit_features,
            self.features@,
            self.baseline_features@,
            self.current_features@,
        )
    }
}

impl View for ScopeConfig {
    type V = (ScopeMode, Seq<String>, Seq<String>, Seq<String>, bool, bool);

    open spec fn view(&self) -> Self::V {
        (
            self.mode,
            self.includes@,
            self.excludes@,
            self.explicit_packages@,
            self.skip_publish_false,
            self.skip_no_lib,
        )
    }
}

impl View for EngineConfig {
    type V = (Option<String>, Seq<String>, bool, bool, bool);

    open spec fn view(&self) -> Self::V {
        (self.cargo_bin, self.extra_args@, self.fail_fast, self.parallel, self.dry_run)
    }
}

impl View for SemverguardConfig {
    type V = (
        RunMode,
        BaselineConfig,
        <ScopeConfig as View>::V,
        <EngineConfig as View>::V,
        <FeaturesConfig as View>::V,
        OutputConfig,
        Seq<WaiverEntry>,
    );

    open spec fn view(&self) -> Self::V {
        (
            self.mode,
            self.baseline,
            self.scope@,
            self.engine@,
            self.features@,
            self.output,
            self.waivers@,
        )
    }
}

impl View for SemverCheckRequest {
    type V = (
        String,
        Option<String>,
        String,
        BaselineConfig,
        <FeaturesConfig as View>::V,
        Seq<String>,
        Option<u64>,
    );

    open spec fn view(&self) -> Self::V {
        (
            self.workspace_root,
            self.cargo_bin,
            self.manifest_path,
            self.baseline,
            self.features@,
            self.extra_args@,
            self.timeout,
        )
    }
}

/// The mathematical view of a package report.
pub struct ReportView {
    /// Package name.
    pub name: Seq<char>,
    /// Package version.
    pub version: Seq<char>,
    /// Manifest path.
    pub manifest_path: Seq<char>,
    /// Outcome.
    pub status: PackageStatus,
    /// Skip or failure reason.
    pub skip_reason: Option<Seq<char>>,
    /// Duration.
    pub duration_ms: u128,
    /// Engine command line.
    pub command: Seq<Seq<char>>,
    /// Engine output.
    pub engine: Option<SemverCheckOutput>,
    /// Inferred bump.
    pub inferred_required_bump: Option<RequiredBump>,
    /// Failure classification.
    pub failure_kind: Option<FailureKind>,
    /// Baseline error details.
    pub baseline_error: Option<BaselineErrorCause>,
}

/// View of an optional string.
pub open spec fn ostr(o: Option<String>) -> Option<Seq<char>> {
    match o {
        Some(s) => Some(s@),
        None => None,
    }
}

impl View for PackageReport {
    type V = ReportView;

    open spec fn view(&self) -> ReportView {
        ReportView {
            name: self.name@,
            version: self.version@,
            manifest_path: self.manifest_path@,
            status: self.status,
            skip_reason: ostr(self.skip_reason),
            duration_ms: self.duration_ms,
            command: self.command@.map_values(|c: String| c@),
            engine: self.engine,
            inferred_required_bump: self.inferred_required_bump,
            failure_kind: self.failure_kind,
            baseline_error: self.baseline_error,
        }
    }
}

/// The views of a list of package reports.
pub open spec fn reports_view(v: Seq<PackageReport>) -> Seq<<PackageReport as View>::V> {
    v.map_values(|p: PackageReport| p@)
}

impl View for RunReport {
    type V = (String, String, String, String, Seq<<PackageReport as View>::V>, Summary);

    open spec fn view(&self) -> Self::V {
        (
            self.semverguard_version,
            self.started_at,
            self.finished_at,
            self.workspace_root,
            reports_view(self.packages@),
            self.summary,
        )
    }
}

} // verus!

verus! {

impl Clone for BaselineErrorCause {
    fn clone(&self) -> (r: Self)
        ensures
            r == *self,
    {
        match self {
            BaselineErrorCause::ShallowClone { detail } => BaselineErrorCause::ShallowClone {
                detail: detail.clone(),
            },
            BaselineErrorCause::RevisionNotFound { rev } => BaselineErrorCause::RevisionNotFound {
                rev: rev.clone(),
            },
            BaselineErrorCause::CrateAbsentFromBaseline { crate_name } =>
                BaselineErrorCause::CrateAbsentFromBaseline { crate_name: crate_name.clone() },
            BaselineErrorCause::MergeBaseNotFound { base, head } =>
                BaselineErrorCause::MergeBaseNotFound { base: base.clone(), head: head.clone() },
            BaselineErrorCause::RustdocGenerationFailed { detail } =>
                BaselineErrorCause::RustdocGenerationFailed { detail: detail.clone() },
            BaselineErrorCause::NotPublished { crate_name, version } =>
                BaselineErrorCause::NotPublished {
                    crate_name: crate_name.clone(),
                    version: version.clone(),
                },
            BaselineErrorCause::Other { message } => BaselineErrorCause::Other {
                message: message.clone(),
            },
        }
    }
}

impl Clone for SemverCheckOutput {
    fn clone(&self) -> (r: Self)
        ensures
            r == *self,
    {
        SemverCheckOutput {
            exit_code: self.exit_code,
            success: self.success,
            stdout: self.stdout.clone(),
            stderr: self.stderr.clone(),
            required_bump: self.required_bump,
        }
    }
}

impl Clone for FeaturesConfig {
    fn clone(&self) -> (r: Self)
        ensures
            r@ == self@,
    {
        FeaturesConfig {
            all_features: self.all_features,
            default_features: self.default_features,
            only_explicit_features: self.only_explicit_features,
            features: crate::text::clone_strings(&self.features),
            baseline_features: crate::text::clone_strings(&self.baseline_features),
            current_features: crate::text::clone_strings(&self.current_features),
        }
    }
}

impl Clone for BaselineConfig {
    fn clone(&self) -> (r: Self)
        ensures
            r == *self,
    {
        BaselineConfig {
            kind: self.kind,
            rev: self.rev.clone(),
            version: self.version.clone(),
            root: self.root.clone(),
            rustdoc: self.rustdoc.clone(),
            on_error: self.on_error,
        }
    }
}

impl Clone for ScopeConfig {
    fn clone(&self) -> (r: Self)
        ensures
            r@ == self@,
    {
        ScopeConfig {
            mode: self.mode,
            includes: crate::text::clone_strings(&self.includes),
            excludes: crate::text::clone_strings(&self.excludes),
            explicit_packages: crate::text::clone_strings(&self.explicit_packages),
            skip_publish_false: self.skip_publish_false,
            skip_no_lib: self.skip_no_lib,
        }
    }
}

impl Clone for EngineConfig {
    fn clone(&self) -> (r: Self)
        ensures
            r@ == self@,
    {
        EngineConfig {
            cargo_bin: self.cargo_bin.clone(),
            extra_args: crate::text::clone_strings(&self.extra_args),
            fail_fast: self.fail_fast,
            parallel: self.parallel,
            dry_run: self.dry_run,
        }
    }
}

impl Clone for OutputConfig {
    fn clone(&self) -> (r: Self)
        ensures
            r == *self,
    {
        OutputConfig {
            format: self.format,
            json_path: self.json_path.clone(),
            pretty_json: self.pretty_json,
            artifacts_dir: self.artifacts_dir.clone(),
            warn_as_fail: self.warn_as_fail,
            color: self.color.clone(),
            verbosity: self.verbosity.clone(),
        }
    }
}

impl Clone for WaiverEntry {
    fn clone(&self) -> (r: Self)
        ensures
            r == *self,
    {
        WaiverEntry {
            fingerprint: self.fingerprint.clone(),
            reason: self.reason.clone(),
            ticket: self.ticket.clone(),
            expires: self.expires.clone(),
        }
    }
}

/// A copy of a list of waivers.
pub fn clone_waivers(v: &Vec<WaiverEntry>) -> (r: Vec<WaiverEntry>)
    ensures
        r@ == v@,
{
    let r = v.clone();
    assert forall|i: int| 0 <= i < v.len() implies r@[i] == v@[i] by {
        assert(cloned::<WaiverEntry>(v[i], r[i]));
    }
    assert(r@ =~= v@);
    r
}

impl Clone for SemverguardConfig {
    fn clone(&self) -> (r: Self)
        ensures
            r@ == self@,
    {
        SemverguardConfig {
            mode: self.mode,
            baseline: self.baseline.clone(),
            scope: self.scope.clone(),
            engine: self.engine.clone(),
            features: self.features.clone(),
            output: self.output.clone(),
            waivers: clone_waivers(&self.waivers),
        }
    }
}

impl Clone for SemverCheckRequest {
    fn clone(&self) -> (r: Self)
        ensures
            r@ == self@,
    {
        SemverCheckRequest {
            workspace_root: self.workspace_root.clone(),
            cargo_bin: self.cargo_bin.clone(),
            manifest_path: self.manifest_path.clone(),
            baseline: self.baseline.clone(),
            features: self.features.clone(),
            extra_args: crate::text::clone_strings(&self.extra_args),
            timeout: self.timeout,
        }
    }
}

impl Clone for PackageReport {
    fn clone(&self) -> (r: Self)
        ensures
            r@ == self@,
    {
        PackageReport {
            name: self.name.clone(),
            version: self.version.clone(),
            manifest_path: self.manifest_path.clone(),
            status: self.status,
            skip_reason: self.skip_reason.clone(),
            duration_ms: self.duration_ms,
            command: crate::text::clone_strings(&self.command),
            engine: self.engine.clone(),
            inferred_required_bump: self.inferred_required_bump,
            failure_kind: self.failure_kind,
            baseline_error: self.baseline_error.clone(),
        }
    }
}

/// A copy of a list of package reports.
pub fn clone_reports(v: &Vec<PackageReport>) -> (r: Vec<PackageReport>)
    ensures
        reports_view(r@) == reports_view(v@),
{
    let mut r: Vec<PackageReport> = Vec::new();
    let mut i: usize = 0;
    while i < v.len()
        invariant
            i <= v.len(),
            reports_view(r@) == reports_view(v@.take(i as int)),
        decreases v.len() - i,
    {
        r.push(v[i].clone());
        assert(reports_view(v@.take(i + 1)) =~= reports_view(v@.take(i as int)).push(v@[i as int]@));
        assert(reports_view(r@) =~= reports_view(v@.take(i + 1)));
        i += 1;
    }
    assert(v@.take(v.len() as int) =~= v@);
    r
}

impl Clone for RunReport {
    fn clone(&self) -> (r: Self)
        ensures
            r@ == self@,
    {
        RunReport {
            semverguard_version: self.semverguard_version.clone(),
            started_at: self.started_at.clone(),
            finished_at: self.finished_at.clone(),
            workspace_root: self.workspace_root.clone(),
            packages: clone_reports(&self.packages),
            summary: self.summary,
        }
    }
}

impl Clone for WorkspacePackage {
    fn clone(&self) -> (r: Self)
        ensures
            r == *self,
    {
        WorkspacePackage {
            name: self.name.clone(),
            version: self.version.clone(),
            manifest_path: self.manifest_path.clone(),
            package_root: self.package_root.clone(),
            publishable: self.publishable,
            has_lib: self.has_lib,
        }
    }
}

/// A copy of a list of workspace packages.
pub fn clone_packages(v: &Vec<WorkspacePackage>) -> (r: Vec<WorkspacePackage>)
    ensures
        r@ == v@,
{
    let r = v.clone();
    assert forall|i: int| 0 <= i < v.len() implies r@[i] == v@[i] by {
        assert(cloned::<WorkspacePackage>(v[i], r[i]));
    }
    assert(r@ =~= v@);
    r
}

impl Clone for WorkspaceMetadata {
    fn clone(&self) -> (r: Self)
        ensures
            r.workspace_root == self.workspace_root,
            r.packages@ == self.packages@,
    {
        WorkspaceMetadata {
            workspace_root: self.workspace_root.clone(),
            packages: clone_packages(&self.packages),
        }
    }
}

impl Clone for ListedPackage {
    fn clone(&self) -> (r: Self)
        ensures
            r == *self,
    {
        ListedPackage {
            name: self.name.clone(),
            version: self.version.clone(),
            manifest_path: self.manifest_path.clone(),
        }
    }
}

impl Clone for SkippedPackage {
    fn clone(&self) -> (r: Self)
        ensures
            r == *self,
    {
        SkippedPackage {
            name: self.name.clone(),
            version: self.version.clone(),
            manifest_path: self.manifest_path.clone(),
            reason: self.reason.clone(),
        }
    }
}

} // verus!
