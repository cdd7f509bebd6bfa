//! Baseline error policy and exit codes of a run report.
//!
//! Exit codes: `0` success (or baseline warnings in lenient lanes), `1` tool error,
//! `2` SemVer violation, `3` baseline error in strict lanes or with `warn_as_fail`.
use vstd::prelude::*;
use crate::model::{
    BaselineErrorCause, BaselineErrorPolicy, ErrorAction, FailureKind, PackageReport,
    PackageStatus, ReportView, RunMode, RunReport, SemverguardConfig,
};
use crate::runner::{rviews, spec_summarize, summarize};
use crate::text::{owned, push_str, spec_trim, trim_str, chars_of};

verus! {

/// Optional text after a separator.
pub open spec fn opt_suffix(sep: Seq<char>, o: Option<String>) -> Seq<char> {
    match o {
        Some(d) => sep + d@,
        None => seq![],
    }
}

/// The human-readable text of a baseline error cause.
pub open spec fn cause_text(c: BaselineErrorCause) -> Seq<char> {
    match c {
        BaselineErrorCause::ShallowClone { detail } => "shallow clone"@ + opt_suffix(": "@, detail),
        BaselineErrorCause::RevisionNotFound { rev } => "baseline revision not found: "@ + rev@,
        BaselineErrorCause::CrateAbsentFromBaseline { crate_name } => "crate `"@ + crate_name@
            + "` not found in baseline"@,
        BaselineErrorCause::MergeBaseNotFound { base, head } => "merge base not found between "@
            + base@ + " and "@ + head@,
        BaselineErrorCause::RustdocGenerationFailed { detail } => "rustdoc generation failed"@
            + opt_suffix(": "@, detail),
        BaselineErrorCause::NotPublished { crate_name, version } => "crate `"@ + crate_name@
            + "` is not published"@ + opt_suffix(" at version "@, version),
        BaselineErrorCause::Other { message } => message@,
    }
}

fn push_opt(s: &mut String, sep: &str, o: &Option<String>)
    ensures
        final(s)@ == old(s)@ + opt_suffix(sep@, *o),
{
    match o {
        Some(d) => {
            push_str(s, sep);
            push_str(s, d.as_str());
        },
        None => {
            assert(final(s)@ =~= old(s)@ + opt_suffix(sep@, *o));
        },
    }
}

/// The human-readable text of a baseline error cause.
pub fn cause_message(c: &BaselineErrorCause) -> (r: String)
    ensures
        r@ == cause_text(*c),
{
    match c {
        BaselineErrorCause::ShallowClone { detail } => {
            let mut s = owned("shallow clone");
            push_opt(&mut s, ": ", detail);
            s
        },
        BaselineErrorCause::RevisionNotFound { rev } => {
            let mut s = owned("baseline revision not found: ");
            push_str(&mut s, rev.as_str());
            s
        },
        BaselineErrorCause::CrateAbsentFromBaseline { crate_name } => {
            let mut s = owned("crate `");
            push_str(&mut s, crate_name.as_str());
            push_str(&mut s, "` not found in baseline");
            s
        },
        BaselineErrorCause::MergeBaseNotFound { base, head } => {
            let mut s = owned("merge base not found between ");
            push_str(&mut s, base.as_str());
            push_str(&mut s, " and ");
            push_str(&mut s, head.as_str());
            s
        },
        BaselineErrorCause::RustdocGenerationFailed { detail } => {
            let mut s = owned("rustdoc generation failed");
            push_opt(&mut s, ": ", detail);
            s
        },
        BaselineErrorCause::NotPublished { crate_name, version } => {
            let mut s = owned("crate `");
            push_str(&mut s, crate_name.as_str());
            push_str(&mut s, "` is not published");
            push_opt(&mut s, " at version ", version);
            s
        },
        BaselineErrorCause::Other { message } => message.clone(),
    }
}

/// The configured action for a baseline error cause.
pub open spec fn spec_configured_action(cause: Option<BaselineErrorCause>, p: BaselineErrorPolicy) -> ErrorAction {
    match cause {
        Some(BaselineErrorCause::CrateAbsentFromBaseline { .. }) => p.new_crate,
        Some(BaselineErrorCause::RevisionNotFound { .. }) => p.missing_revision,
        Some(BaselineErrorCause::ShallowClone { .. }) => p.shallow_clone,
        Some(BaselineErrorCause::MergeBaseNotFound { .. }) => p.missing_revision,
        Some(BaselineErrorCause::RustdocGenerationFailed { .. }) => p.rustdoc_failure,
        Some(BaselineErrorCause::NotPublished { .. }) => p.not_published,
        _ => p.missing_revision,
    }
}

/// The configured action for a baseline error cause.
pub fn configured_action(cause: &Option<BaselineErrorCause>, p: &BaselineErrorPolicy) -> (r: ErrorAction)
    ensures
        r == spec_configured_action(*cause, *p),
{
    match cause {
        Some(BaselineErrorCause::CrateAbsentFromBaseline { .. }) => p.new_crate,
        Some(BaselineErrorCause::RevisionNotFound { .. }) => p.missing_revision,
        Some(BaselineErrorCause::ShallowClone { .. }) => p.shallow_clone,
        Some(BaselineErrorCause::MergeBaseNotFound { .. }) => p.missing_revision,
        Some(BaselineErrorCause::RustdocGenerationFailed { .. }) => p.rustdoc_failure,
        Some(BaselineErrorCause::NotPublished { .. }) => p.not_published,
        _ => p.missing_revision,
    }
}

/// The action after lane defaults: release lanes turn warnings into failures,
/// lenient lanes turn failures into warnings.
pub open spec fn spec_effective_action(
    cause: Option<BaselineErrorCause>,
    p: BaselineErrorPolicy,
    mode: RunMode,
) -> ErrorAction {
    let a = spec_configured_action(cause, p);
    let a = if mode == RunMode::Release && a == ErrorAction::Warn {
        ErrorAction::Fail
    } else {
        a
    };
    if a == ErrorAction::Fail && mode.spec_baseline_errors_are_warnings() {
        ErrorAction::Warn
    } else {
        a
    }
}

/// The action after lane defaults.
pub fn effective_action(cause: &Option<BaselineErrorCause>, p: &BaselineErrorPolicy, mode: RunMode) -> (r:
    ErrorAction)
    ensures
        r == spec_effective_action(*cause, *p, mode),
{
    let mut action = configured_action(cause, p);
    if mode == RunMode::Release && action == ErrorAction::Warn {
        action = ErrorAction::Fail;
    }
    if action == ErrorAction::Fail && mode.baseline_errors_are_warnings() {
        action = ErrorAction::Warn;
    }
    action
}

/// What a baseline failure is explained by: the cause, else the recorded reason,
/// else the engine's standard error, else a generic text.
pub open spec fn spec_baseline_detail(p: ReportView) -> Seq<char> {
    match p.baseline_error {
        Some(c) => cause_text(c),
        None => match p.skip_reason {
            Some(r) if spec_trim(r).len() > 0 => r,
            _ => match p.engine {
                Some(e) if spec_trim(e.stderr@).len() > 0 => spec_trim(e.stderr@),
                _ => "baseline comparison failed"@,
            },
        },
    }
}

/// What a baseline failure is explained by.
pub fn baseline_detail(p: &PackageReport) -> (r: String)
    ensures
        r@ == spec_baseline_detail(p@),
{
    if let Some(c) = &p.baseline_error {
        return cause_message(c);
    }
    if let Some(reason) = &p.skip_reason {
        let t = trim_str(reason.as_str());
        if t.as_str().unicode_len() > 0 {
            return reason.clone();
        }
    }
    if let Some(e) = &p.engine {
        let t = trim_str(e.stderr.as_str());
        if t.as_str().unicode_len() > 0 {
            return t;
        }
    }
    owned("baseline comparison failed")
}

/// A package report after the baseline error policy.
pub open spec fn spec_apply_policy(p: ReportView, on_error: BaselineErrorPolicy, mode: RunMode) -> ReportView {
    if p.failure_kind != Some(FailureKind::BaselineError) {
        p
    } else {
        match spec_effective_action(p.baseline_error, on_error, mode) {
            ErrorAction::Fail => ReportView { status: PackageStatus::Failed, ..p },
            ErrorAction::Warn => ReportView {
                status: PackageStatus::Skipped,
                skip_reason: Some("baseline warning: "@ + spec_baseline_detail(p)),
                ..p
            },
            ErrorAction::Skip => ReportView {
                status: PackageStatus::Skipped,
                skip_reason: Some("baseline skipped: "@ + spec_baseline_detail(p)),
                failure_kind: None,
                baseline_error: None,
                ..p
            },
        }
    }
}

/// Apply the baseline error policy to one package report.
pub fn apply_policy_to_package(pkg: &mut PackageReport, on_error: &BaselineErrorPolicy, mode: RunMode)
    ensures
        final(pkg)@ == spec_apply_policy(old(pkg)@, *on_error, mode),
{
    if pkg.failure_kind != Some(FailureKind::BaselineError) {
        return;
    }
    let action = effective_action(&pkg.baseline_error, on_error, mode);
    match action {
        ErrorAction::Fail => {
            pkg.status = PackageStatus::Failed;
        },
        ErrorAction::Warn => {
            let d = baseline_detail(pkg);
            let mut reason = owned("baseline warning: ");
            push_str(&mut reason, d.as_str());
            pkg.status = PackageStatus::Skipped;
            pkg.skip_reason = Some(reason);
        },
        ErrorAction::Skip => {
            let d = baseline_detail(pkg);
            let mut reason = owned("baseline skipped: ");
            push_str(&mut reason, d.as_str());
            pkg.status = PackageStatus::Skipped;
            pkg.skip_reason = Some(reason);
            pkg.failure_kind = None;
            pkg.baseline_error = None;
        },
    }
}

/// Apply baseline error policy to a run report in place: each package with a baseline
/// error is failed, warned (skipped) or skipped, and the summary is recounted.
/// `resolved_mode` is the lane after auto-detection.
pub fn apply_baseline_error_policy(report: &mut RunReport, config: &SemverguardConfig, resolved_mode: RunMode)
    ensures
        rviews(final(report).packages@) == rviews(old(report).packages@).map_values(
            |p: ReportView| spec_apply_policy(p, config.baseline.on_error, resolved_mode),
        ),
        final(report).summary == spec_summarize(rviews(final(report).packages@)),
        final(report).semverguard_version == old(report).semverguard_version,
        final(report).started_at == old(report).started_at,
        final(report).finished_at == old(report).finished_at,
        final(report).workspace_root == old(report).workspace_root,
{
    let ghost orig = rviews(report.packages@);
    let n = report.packages.len();
    let mut i: usize = 0;
    while i < n
        invariant
            n == report.packages@.len(),
            n == orig.len(),
            i <= n,
            forall|k: int| 0 <= k < i ==> (#[trigger] report.packages@[k])@ == spec_apply_policy(
                orig[k],
                config.baseline.on_error,
                resolved_mode,
            ),
            forall|k: int| i <= k < n ==> (#[trigger] report.packages@[k])@ == orig[k],
            report.semverguard_version == old(report).semverguard_version,
            report.started_at == old(report).started_at,
            report.finished_at == old(report).finished_at,
            report.workspace_root == old(report).workspace_root,
        decreases n - i,
    {
        let mut pkg = report.packages[i].clone();
        apply_policy_to_package(&mut pkg, &config.baseline.on_error, resolved_mode);
        report.packages.set(i, pkg);
        i += 1;
    }
    assert(rviews(report.packages@) =~= orig.map_values(
        |p: ReportView| spec_apply_policy(p, config.baseline.on_error, resolved_mode),
    ));
    report.summary = summarize(&report.packages);
}

/// Whether some failed package has the given failure kind (a missing kind counts as unknown).
pub open spec fn has_failed_kind(pkgs: Seq<PackageReport>, k: FailureKind) -> bool {
    exists|i: int|
        0 <= i < pkgs.len() && (#[trigger] pkgs[i]).status == PackageStatus::Failed && match pkgs[i].failure_kind {
            Some(f) => f == k,
            None => k == FailureKind::Unknown,
        }
}

/// The exit code of a run report.
pub open spec fn spec_exit_code_from_report(pkgs: Seq<PackageReport>, mode: RunMode, warn_as_fail: bool) -> i32 {
    if has_failed_kind(pkgs, FailureKind::ToolError) {
        1
    } else if has_failed_kind(pkgs, FailureKind::SemverViolation) || has_failed_kind(
        pkgs,
        FailureKind::Unknown,
    ) {
        2
    } else if has_failed_kind(pkgs, FailureKind::BaselineError) {
        if mode.spec_baseline_errors_are_warnings() && !warn_as_fail {
            0
        } else {
            3
        }
    } else {
        0
    }
}

/// Compute exit code from a run report (non-receipt output modes).
pub fn exit_code_from_report(report: &RunReport, resolved_mode: RunMode, warn_as_fail: bool) -> (r: i32)
    ensures
        r == spec_exit_code_from_report(report.packages@, resolved_mode, warn_as_fail),
{
    let mut tool = false;
    let mut semver = false;
    let mut baseline = false;
    let mut i: usize = 0;
    while i < report.packages.len()
        invariant
            i <= report.packages.len(),
            tool == exists|j: int|
                0 <= j < i && (#[trigger] report.packages@[j]).status == PackageStatus::Failed
                    && report.packages@[j].failure_kind == Some(FailureKind::ToolError),
            semver == exists|j: int|
                0 <= j < i && (#[trigger] report.packages@[j]).status == PackageStatus::Failed && (
                report.packages@[j].failure_kind == Some(FailureKind::SemverViolation)
                    || report.packages@[j].failure_kind == Some(FailureKind::Unknown)
                    || report.packages@[j].failure_kind is None),
            baseline == exists|j: int|
                0 <= j < i && (#[trigger] report.packages@[j]).status == PackageStatus::Failed
                    && report.packages@[j].failure_kind == Some(FailureKind::BaselineError),
        decreases report.packages.len() - i,
    {
        let p = &report.packages[i];
        if p.status == PackageStatus::Failed {
            match p.failure_kind {
                Some(FailureKind::ToolError) => tool = true,
                Some(FailureKind::BaselineError) => baseline = true,
                _ => semver = true,
            }
        }
        i += 1;
    }
    let ghost pk = report.packages@;
    assert(tool == has_failed_kind(pk, FailureKind::ToolError));
    assert(baseline == has_failed_kind(pk, FailureKind::BaselineError));
    assert(semver == (has_failed_kind(pk, FailureKind::SemverViolation) || has_failed_kind(
        pk,
        FailureKind::Unknown,
    )));
    if tool {
        1
    } else if semver {
        2
    } else if baseline {
        if resolved_mode.baseline_errors_are_warnings() && !warn_as_fail {
            0
        } else {
            3
        }
    } else {
        0
    }
}

} // verus!
