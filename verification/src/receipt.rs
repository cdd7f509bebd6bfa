//! The `sensor.report.v1` receipt: its data model, capability reporting,
//! verdicts and exit codes.
use vstd::prelude::*;
use crate::model::{
    BaselineConfig, BaselineErrorCause, CapabilityStatus, FindingLevel, RunReport, VerdictStatus,
};
use crate::text::{owned, push_str};

verus! {

/// Check id of SemVer policy violations.
pub const CHECK_SEMVER: &'static str = "semver";
/// Code of SemVer violations.
pub const CODE_VIOLATION: &'static str = "violation";
/// Check id of baseline resolution errors.
pub const CHECK_BASELINE: &'static str = "baseline";
/// Code of a missing baseline.
pub const CODE_MISSING: &'static str = "missing";
/// Check id of tool and runtime errors.
pub const CHECK_TOOL: &'static str = "tool.runtime";
/// Code of tool errors.
pub const CODE_ERROR: &'static str = "runtime_error";
/// Check id of unclassifiable engine failures.
pub const CHECK_ENGINE: &'static str = "engine";
/// Code of unknown failures.
pub const CODE_UNKNOWN: &'static str = "unknown";

/// Verdict reason: a SemVer violation was found.
pub const REASON_SEMVER_VIOLATION: &'static str = "semver_violation";
/// Verdict reason: the baseline was unavailable.
pub const REASON_BASELINE_UNAVAILABLE: &'static str = "baseline_unavailable";
/// Verdict reason: a tool or runtime error.
pub const REASON_TOOL_ERROR: &'static str = "tool_error";
/// Verdict reason: an engine error.
pub const REASON_ENGINE_ERROR: &'static str = "engine_error";
/// Verdict reason: findings were truncated.
pub const REASON_TRUNCATED: &'static str = "truncated";
/// Verdict reason: every package was skipped.
pub const REASON_ALL_PACKAGES_SKIPPED: &'static str = "all_packages_skipped";
/// Verdict reason: a finding was waived.
pub const REASON_WAIVED: &'static str = "waived";

/// Capability reason: no git binary.
pub const CAP_REASON_GIT_UNAVAILABLE: &'static str = "git_unavailable";
/// Capability reason: shallow clone.
pub const CAP_REASON_SHALLOW_CLONE: &'static str = "shallow_clone";
/// Capability reason: the baseline could not be resolved.
pub const CAP_REASON_RESOLUTION_FAILED: &'static str = "resolution_failed";
/// Capability reason: the capability is not needed by this configuration.
pub const CAP_REASON_NOT_REQUIRED: &'static str = "not_required";

/// Most findings a receipt holds; the rest are counted and dropped.
pub const MAX_FINDINGS: usize = 500;

/// A tool error to report as a finding.
pub struct ToolErrorFinding {
    /// Error message.
    pub message: String,
}

impl ToolErrorFinding {
    /// A tool error with the given message.
    pub fn new(message: &str) -> (r: Self)
        ensures
            r.message@ == message@,
    {
        ToolErrorFinding { message: owned(message) }
    }
}

/// Where a finding points.
pub struct FindingLocation {
    /// Workspace-relative manifest path.
    pub path: Option<String>,
    /// Line (never known).
    pub line: Option<u32>,
    /// Column (never known).
    pub column: Option<u32>,
    /// Raw engine log of the package.
    pub raw_log: Option<String>,
}

/// Structured data of a package finding.
pub struct FindingData {
    /// Package name.
    pub package: String,
    /// Package version.
    pub version: String,
    /// Required bump (`major`, `minor`, `patch`, `unknown`), if inferred.
    pub required_bump: Option<String>,
    /// Failure kind token.
    pub failure_kind: String,
    /// Workspace-relative manifest path.
    pub manifest_path: String,
    /// Version after the required bump.
    pub suggested_version: Option<String>,
    /// Cause of a baseline error.
    pub baseline_error_cause: Option<BaselineErrorCause>,
}

/// Waiver attached to a finding.
pub struct WaiverInfo {
    /// Why it is waived.
    pub reason: String,
    /// Tracking ticket.
    pub ticket: Option<String>,
    /// Expiry date.
    pub expires: Option<String>,
}

/// One finding of a receipt.
pub struct Finding {
    /// Check id.
    pub check_id: String,
    /// Code within the check.
    pub code: String,
    /// Severity.
    pub level: FindingLevel,
    /// Human-readable message.
    pub message: String,
    /// Location.
    pub location: Option<FindingLocation>,
    /// Structured data.
    pub data: Option<FindingData>,
    /// Stable fingerprint (package findings only).
    pub fingerprint: Option<String>,
    /// Waiver, when one applies.
    pub waived: Option<WaiverInfo>,
}

/// Raw engine logs of one package.
pub struct RawLogRef {
    /// Package name.
    pub package: String,
    /// Package version.
    pub version: String,
    /// Workspace-relative stdout log path.
    pub stdout: Option<String>,
    /// Workspace-relative stderr log path.
    pub stderr: Option<String>,
}

/// Files written next to the receipt.
pub struct ArtifactIndex {
    /// The receipt itself.
    pub report_json: String,
    /// The PR comment.
    pub comment_md: String,
    /// The SARIF report, when requested.
    pub sarif_json: Option<String>,
    /// Raw engine logs.
    pub raw_logs: Vec<RawLogRef>,
}

/// Status of one capability.
pub struct CapabilityInfo {
    /// Status.
    pub status: CapabilityStatus,
    /// Detail text.
    pub detail: Option<String>,
    /// Reason token.
    pub reason: Option<String>,
}

/// Capabilities of a run.
pub struct RunCapabilities {
    /// Git.
    pub git: CapabilityInfo,
    /// Baseline.
    pub baseline: CapabilityInfo,
}

/// Facts about the run.
pub struct RunInfo {
    /// Start time.
    pub started_at: String,
    /// Finish time.
    pub finished_at: String,
    /// Duration in milliseconds.
    pub duration_ms: u128,
    /// Workspace root.
    pub workspace_root: String,
    /// Baseline configuration.
    pub baseline: BaselineConfig,
    /// Capabilities, when known.
    pub capabilities: Option<RunCapabilities>,
}

/// Verdict of a receipt.
pub struct Verdict {
    /// Status.
    pub status: VerdictStatus,
    /// Reason tokens.
    pub reasons: Vec<String>,
}

/// The tool that wrote the receipt.
pub struct ToolInfo {
    /// Name.
    pub name: String,
    /// Version.
    pub version: String,
    /// Repository URL.
    pub repository_url: Option<String>,
}

/// Summary counts of a receipt.
pub struct SummaryData {
    /// Packages in the report.
    pub packages_total: u32,
    /// Packages not skipped.
    pub packages_checked: u32,
    /// Packages skipped.
    pub packages_skipped: u32,
    /// Packages with a SemVer violation.
    pub violations: u32,
    /// Packages with a baseline error.
    pub baseline_issues: u32,
    /// Largest required bump.
    pub max_required_bump: Option<String>,
    /// `git` or `crates-io`.
    pub baseline_kind: String,
    /// Baseline revision or version.
    pub baseline_ref: Option<String>,
}

/// Tool-specific receipt data.
pub struct SemverguardData {
    /// The run report.
    pub report: RunReport,
    /// Findings before truncation, when truncated.
    pub findings_total: Option<usize>,
    /// Findings kept, when truncated.
    pub findings_emitted: Option<usize>,
    /// Summary counts.
    pub summary: Option<SummaryData>,
}

/// A `sensor.report.v1` receipt.
pub struct SensorReportV1 {
    /// Schema id.
    pub schema: String,
    /// Tool.
    pub tool: ToolInfo,
    /// Run facts.
    pub run: RunInfo,
    /// Verdict.
    pub verdict: Verdict,
    /// Findings.
    pub findings: Vec<Finding>,
    /// Tool-specific data.
    pub data: Option<SemverguardData>,
    /// Artifact index.
    pub artifacts: ArtifactIndex,
}

/// The view of an optional string.
pub open spec fn os(o: Option<String>) -> Option<Seq<char>> {
    match o {
        Some(s) => Some(s@),
        None => None,
    }
}

/// The mathematical view of a finding location.
pub struct LocationView {
    pub path: Option<Seq<char>>,
    pub line: Option<u32>,
    pub column: Option<u32>,
    pub raw_log: Option<Seq<char>>,
}

/// The mathematical view of finding data.
pub struct DataView {
    pub package: Seq<char>,
    pub version: Seq<char>,
    pub required_bump: Option<Seq<char>>,
    pub failure_kind: Seq<char>,
    pub manifest_path: Seq<char>,
    pub suggested_version: Option<Seq<char>>,
    pub baseline_error_cause: Option<BaselineErrorCause>,
}

/// The mathematical view of a waiver.
pub struct WaiverView {
    pub reason: Seq<char>,
    pub ticket: Option<Seq<char>>,
    pub expires: Option<Seq<char>>,
}

/// The mathematical view of a finding.
pub struct FindingView {
    pub check_id: Seq<char>,
    pub code: Seq<char>,
    pub level: FindingLevel,
    pub message: Seq<char>,
    pub location: Option<LocationView>,
    pub data: Option<DataView>,
    pub fingerprint: Option<Seq<char>>,
    pub waived: Option<WaiverView>,
}

impl View for FindingLocation {
    type V = LocationView;

    open spec fn view(&self) -> LocationView {
        LocationView { path: os(self.path), line: self.line, column: self.column, raw_log: os(self.raw_log) }
    }
}

impl View for FindingData {
    type V = DataView;

    open spec fn view(&self) -> DataView {
        DataView {
            package: self.package@,
            version: self.version@,
            required_bump: os(self.required_bump),
            failure_kind: self.failure_kind@,
            manifest_path: self.manifest_path@,
            suggested_version: os(self.suggested_version),
            baseline_error_cause: self.baseline_error_cause,
        }
    }
}

impl View for WaiverInfo {
    type V = WaiverView;

    open spec fn view(&self) -> WaiverView {
        WaiverView { reason: self.reason@, ticket: os(self.ticket), expires: os(self.expires) }
    }
}

impl View for Finding {
    type V = FindingView;

    open spec fn view(&self) -> FindingView {
        FindingView {
            check_id: self.check_id@,
            code: self.code@,
            level: self.level,
            message: self.message@,
            location: match self.location {
                Some(l) => Some(l@),
                None => None,
            },
            data: match self.data {
                Some(d) => Some(d@),
                None => None,
            },
            fingerprint: os(self.fingerprint),
            waived: match self.waived {
                Some(w) => Some(w@),
                None => None,
            },
        }
    }
}

/// The views of a list of findings.
pub open spec fn findings_view(v: Seq<Finding>) -> Seq<FindingView> {
    v.map_values(|f: Finding| f@)
}

/// The view of a raw log reference.
pub open spec fn raw_view(r: RawLogRef) -> (Seq<char>, Seq<char>, Option<Seq<char>>, Option<Seq<char>>) {
    (r.package@, r.version@, os(r.stdout), os(r.stderr))
}

/// The views of raw log references.
pub open spec fn raws_view(v: Seq<RawLogRef>) -> Seq<(Seq<char>, Seq<char>, Option<Seq<char>>, Option<Seq<char>>)> {
    v.map_values(|r: RawLogRef| raw_view(r))
}

/// The view of a capability.
pub open spec fn cap_view(c: CapabilityInfo) -> (CapabilityStatus, Option<Seq<char>>, Option<Seq<char>>) {
    (c.status, os(c.detail), os(c.reason))
}

/// What a run knows about its prerequisites, so that a missing prerequisite is
/// reported rather than silently passed.
pub struct CapabilityContext {
    /// Git was available and worked.
    pub git_available: bool,
    /// Detail about git.
    pub git_detail: Option<String>,
    /// The baseline was resolved.
    pub baseline_available: bool,
    /// Detail about the baseline.
    pub baseline_detail: Option<String>,
    /// The repository is a shallow clone.
    pub shallow_clone: bool,
    /// Git binary version string.
    pub git_version: Option<String>,
    /// Git is not needed.
    pub git_skipped: bool,
    /// The baseline is not needed.
    pub baseline_skipped: bool,
}

/// The view of a capability context.
pub open spec fn ctx_view(c: CapabilityContext) -> (bool, Option<Seq<char>>, bool, Option<Seq<char>>, bool, Option<Seq<char>>, bool, bool) {
    (
        c.git_available,
        os(c.git_detail),
        c.baseline_available,
        os(c.baseline_detail),
        c.shallow_clone,
        os(c.git_version),
        c.git_skipped,
        c.baseline_skipped,
    )
}

/// The git detail reported for a capability context.
pub open spec fn spec_git_detail(c: CapabilityContext) -> Option<Seq<char>> {
    let d = match c.git_version {
        Some(ver) => match c.git_detail {
            Some(cfg) => Some(ver@ + "; rev="@ + cfg@),
            None => Some(ver@),
        },
        None => os(c.git_detail),
    };
    if c.shallow_clone {
        let existing = match d {
            Some(e) => e,
            None => seq![],
        };
        Some(if existing.len() == 0 { "shallow clone"@ } else { existing + "; shallow clone"@ })
    } else {
        d
    }
}

/// The git capability reported for a capability context.
pub open spec fn spec_git_capability(c: CapabilityContext) -> (CapabilityStatus, Option<Seq<char>>, Option<Seq<char>>) {
    let d = spec_git_detail(c);
    if c.git_skipped {
        (CapabilityStatus::Skipped, d, Some("not_required"@))
    } else if !c.git_available {
        (CapabilityStatus::Unavailable, d, Some("git_unavailable"@))
    } else if c.shallow_clone {
        (CapabilityStatus::Available, d, Some("shallow_clone"@))
    } else {
        (CapabilityStatus::Available, d, None)
    }
}

/// The baseline capability reported for a capability context.
pub open spec fn spec_baseline_capability(c: CapabilityContext) -> (CapabilityStatus, Option<Seq<char>>, Option<Seq<char>>) {
    let d = os(c.baseline_detail);
    if c.baseline_skipped {
        (CapabilityStatus::Skipped, d, Some("not_required"@))
    } else if !c.baseline_available {
        (CapabilityStatus::Unavailable, d, Some("resolution_failed"@))
    } else {
        (CapabilityStatus::Available, d, None)
    }
}

fn clone_opt(o: &Option<String>) -> (r: Option<String>)
    ensures
        os(r) == os(*o),
{
    match o {
        Some(s) => Some(s.clone()),
        None => None,
    }
}

impl CapabilityContext {
    /// A context where nothing is available and nothing is skipped.
    pub fn new() -> (r: Self)
        ensures
            ctx_view(r) == (false, None::<Seq<char>>, false, None::<Seq<char>>, false, None::<Seq<char>>, false, false),
    {
        CapabilityContext {
            git_available: false,
            git_detail: None,
            baseline_available: false,
            baseline_detail: None,
            shallow_clone: false,
            git_version: None,
            git_skipped: false,
            baseline_skipped: false,
        }
    }

    /// Set whether git is available.
    pub fn with_git_available(self, available: bool) -> (r: Self)
        ensures
            ctx_view(r) == ({
                let v = ctx_view(self);
                (available, v.1, v.2, v.3, v.4, v.5, v.6, v.7)
            }),
    {
        let mut s = self;
        s.git_available = available;
        s
    }

    /// Set the git detail.
    pub fn with_git_detail(self, detail: &str) -> (r: Self)
        ensures
            ctx_view(r) == ({
                let v = ctx_view(self);
                (v.0, Some(detail@), v.2, v.3, v.4, v.5, v.6, v.7)
            }),
    {
        let mut s = self;
        s.git_detail = Some(owned(detail));
        s
    }

    /// Set whether the baseline is available.
    pub fn with_baseline_available(self, available: bool) -> (r: Self)
        ensures
            ctx_view(r) == ({
                let v = ctx_view(self);
                (v.0, v.1, available, v.3, v.4, v.5, v.6, v.7)
            }),
    {
        let mut s = self;
        s.baseline_available = available;
        s
    }

    /// Set the baseline detail.
    pub fn with_baseline_detail(self, detail: &str) -> (r: Self)
        ensures
            ctx_view(r) == ({
                let v = ctx_view(self);
                (v.0, v.1, v.2, Some(detail@), v.4, v.5, v.6, v.7)
            }),
    {
        let mut s = self;
        s.baseline_detail = Some(owned(detail));
        s
    }

    /// Set whether the repository is a shallow clone.
    pub fn with_shallow_clone(self, shallow: bool) -> (r: Self)
        ensures
            ctx_view(r) == ({
                let v = ctx_view(self);
                (v.0, v.1, v.2, v.3, shallow, v.5, v.6, v.7)
            }),
    {
        let mut s = self;
        s.shallow_clone = shallow;
        s
    }

    /// Set the git binary version.
    pub fn with_git_version(self, version: &str) -> (r: Self)
        ensures
            ctx_view(r) == ({
                let v = ctx_view(self);
                (v.0, v.1, v.2, v.3, v.4, Some(version@), v.6, v.7)
            }),
    {
        let mut s = self;
        s.git_version = Some(owned(version));
        s
    }

    /// Set whether git is not needed.
    pub fn with_git_skipped(self, skipped: bool) -> (r: Self)
        ensures
            ctx_view(r) == ({
                let v = ctx_view(self);
                (v.0, v.1, v.2, v.3, v.4, v.5, skipped, v.7)
            }),
    {
        let mut s = self;
        s.git_skipped = skipped;
        s
    }

    /// Set whether the baseline is not needed.
    pub fn with_baseline_skipped(self, skipped: bool) -> (r: Self)
        ensures
            ctx_view(r) == ({
                let v = ctx_view(self);
                (v.0, v.1, v.2, v.3, v.4, v.5, v.6, skipped)
            }),
    {
        let mut s = self;
        s.baseline_skipped = skipped;
        s
    }

    /// The run capabilities this context reports. The git version is preferred
    /// over the configured detail; a shallow clone is always mentioned.
    pub fn build(&self) -> (r: RunCapabilities)
        ensures
            cap_view(r.git) == spec_git_capability(*self),
            cap_view(r.baseline) == spec_baseline_capability(*self),
    {
        let mut git_detail = match &self.git_version {
            Some(ver) => match &self.git_detail {
                Some(cfg) => {
                    let mut s = ver.clone();
                    push_str(&mut s, "; rev=");
                    push_str(&mut s, cfg.as_str());
                    Some(s)
                },
                None => Some(ver.clone()),
            },
            None => clone_opt(&self.git_detail),
        };
        if self.shallow_clone {
            let existing = match git_detail {
                Some(e) => e,
                None => owned(""),
            };
            proof {
                reveal_strlit("");
            }
            git_detail = Some(
                if existing.as_str().unicode_len() == 0 {
                    owned("shallow clone")
                } else {
                    let mut s = existing;
                    push_str(&mut s, "; shallow clone");
                    s
                },
            );
        }
        let git = if self.git_skipped {
            CapabilityInfo {
                status: CapabilityStatus::Skipped,
                detail: git_detail,
                reason: Some(owned(CAP_REASON_NOT_REQUIRED)),
            }
        } else if !self.git_available {
            CapabilityInfo {
                status: CapabilityStatus::Unavailable,
                detail: git_detail,
                reason: Some(owned(CAP_REASON_GIT_UNAVAILABLE)),
            }
        } else if self.shallow_clone {
            CapabilityInfo {
                status: CapabilityStatus::Available,
                detail: git_detail,
                reason: Some(owned(CAP_REASON_SHALLOW_CLONE)),
            }
        } else {
            CapabilityInfo { status: CapabilityStatus::Available, detail: git_detail, reason: None }
        };
        let baseline = if self.baseline_skipped {
            CapabilityInfo {
                status: CapabilityStatus::Skipped,
                detail: clone_opt(&self.baseline_detail),
                reason: Some(owned(CAP_REASON_NOT_REQUIRED)),
            }
        } else if !self.baseline_available {
            CapabilityInfo {
                status: CapabilityStatus::Unavailable,
                detail: clone_opt(&self.baseline_detail),
                reason: Some(owned(CAP_REASON_RESOLUTION_FAILED)),
            }
        } else {
            CapabilityInfo {
                status: CapabilityStatus::Available,
                detail: clone_opt(&self.baseline_detail),
                reason: None,
            }
        };
        proof {
            reveal_strlit("not_required");
            reveal_strlit("git_unavailable");
            reveal_strlit("shallow_clone");
            reveal_strlit("resolution_failed");
        }
        RunCapabilities { git, baseline }
    }
}

fn clone_opt_string(o: &Option<String>) -> (r: Option<String>)
    ensures
        os(r) == os(*o),
{
    match o {
        Some(s) => Some(s.clone()),
        None => None,
    }
}

/// A copy of a finding.
pub fn clone_finding(f: &Finding) -> (r: Finding)
    ensures
        r@ == f@,
{
    Finding {
        check_id: f.check_id.clone(),
        code: f.code.clone(),
        level: f.level,
        message: f.message.clone(),
        location: match &f.location {
            Some(l) => Some(
                FindingLocation {
                    path: clone_opt_string(&l.path),
                    line: l.line,
                    column: l.column,
                    raw_log: clone_opt_string(&l.raw_log),
                },
            ),
            None => None,
        },
        data: match &f.data {
            Some(d) => Some(
                FindingData {
                    package: d.package.clone(),
                    version: d.version.clone(),
                    required_bump: clone_opt_string(&d.required_bump),
                    failure_kind: d.failure_kind.clone(),
                    manifest_path: d.manifest_path.clone(),
                    suggested_version: clone_opt_string(&d.suggested_version),
                    baseline_error_cause: match &d.baseline_error_cause {
                        Some(c) => Some(c.clone()),
                        None => None,
                    },
                },
            ),
            None => None,
        },
        fingerprint: clone_opt_string(&f.fingerprint),
        waived: match &f.waived {
            Some(w) => Some(
                WaiverInfo {
                    reason: w.reason.clone(),
                    ticket: clone_opt_string(&w.ticket),
                    expires: clone_opt_string(&w.expires),
                },
            ),
            None => None,
        },
    }
}

/// A copy of an artifact index.
pub fn clone_artifacts(a: &ArtifactIndex) -> (r: ArtifactIndex)
    ensures
        r.report_json@ == a.report_json@,
        r.comment_md@ == a.comment_md@,
        os(r.sarif_json) == os(a.sarif_json),
        raws_view(r.raw_logs@) == raws_view(a.raw_logs@),
{
    let mut raws: Vec<RawLogRef> = Vec::new();
    let mut i: usize = 0;
    while i < a.raw_logs.len()
        invariant
            i <= a.raw_logs.len(),
            raws_view(raws@) == raws_view(a.raw_logs@).take(i as int),
        decreases a.raw_logs.len() - i,
    {
        let r = &a.raw_logs[i];
        let ghost before = raws_view(raws@);
        raws.push(
            RawLogRef {
                package: r.package.clone(),
                version: r.version.clone(),
                stdout: clone_opt_string(&r.stdout),
                stderr: clone_opt_string(&r.stderr),
            },
        );
        assert(raws_view(raws@) =~= before.push(raw_view(*r)));
        assert(raws_view(a.raw_logs@).take(i + 1) =~= raws_view(a.raw_logs@).take(i as int).push(raw_view(*r)));
        i += 1;
    }
    assert(raws_view(a.raw_logs@).take(a.raw_logs.len() as int) =~= raws_view(a.raw_logs@));
    ArtifactIndex {
        report_json: a.report_json.clone(),
        comment_md: a.comment_md.clone(),
        sarif_json: clone_opt_string(&a.sarif_json),
        raw_logs: raws,
    }
}

} // verus!
