//! The orchestration runner: package selection, change scoping and engine execution.
//!
//! The decisions are pure functions with exact contracts; the runner calls the
//! ports (workspace, git, engine, progress) in between.
use vstd::prelude::*;
use globset::GlobSet;
use crate::error::SemverguardError;
use crate::globs::{build_globset, matches_name_filters, opt_set_globs, spec_name_filter};
use crate::model::{
    ListResult, ListedPackage, PackageReport, PackageStatus, ReportView, SemverCheckOutput,
    SemverCheckRequest, SemverguardConfig, BaselineKind, ScopeConfig, ScopeMode, SkippedPackage,
    Summary, WorkspaceMetadata, WorkspacePackage,
};
use crate::paths::{
    comps_prefix, comps_view, is_under, norm_comps, normalize_rel, path_components,
    path_relative_to, spec_components, Comp, PathComp,
};
use crate::text::{owned, push_str, clone_strings, str_eq, debug_list};
use crate::globs::{glob_build_error, strings_view};
use crate::classification::{
    classify_engine_error_detailed, classify_output_detailed, opt_cause_view, spec_classify,
    spec_classify_engine_error, CauseView,
};
use crate::model::{BaselineErrorCause, FailureKind};

verus! {

/// Provides workspace/package information.
pub trait WorkspaceProvider {
    /// Whether `result` is an outcome this provider may give when loading
    /// `workspace_root`: any outcome, unless a provider says more.
    open spec fn load_gives(&self, workspace_root: Seq<char>, result: Result<WorkspaceMetadata, SemverguardError>) -> bool {
        true
    }

    /// Load workspace metadata rooted at `workspace_root`.
    fn load(&self, workspace_root: &str) -> (r: Result<WorkspaceMetadata, SemverguardError>)
        ensures
            self.load_gives(workspace_root@, r),
    ;
}

/// Provides git-based operations for scoping and baseline selection.
pub trait GitProvider {
    /// Whether `result` is an outcome this provider may give when asked for the paths
    /// changed between `base` and `head` in `workspace_root`: any outcome, unless a
    /// provider says more.
    open spec fn changed_gives(
        &self,
        workspace_root: Seq<char>,
        base: Seq<char>,
        head: Seq<char>,
        result: Result<Vec<String>, SemverguardError>,
    ) -> bool {
        true
    }

    /// List changed paths between `base` and `head`, relative to `workspace_root`.
    fn changed_paths(&self, workspace_root: &str, base: &str, head: &str) -> (r: Result<
        Vec<String>,
        SemverguardError,
    >)
        ensures
            self.changed_gives(workspace_root@, base@, head@, r),
    ;
}

/// Runs semver checks for a package.
pub trait SemverEngine {
    /// Whether `result` is an outcome this engine may give for `request`: any
    /// outcome, unless an engine says more.
    open spec fn check_gives(
        &self,
        request: SemverCheckRequest,
        result: Result<(Vec<String>, SemverCheckOutput), SemverguardError>,
    ) -> bool {
        true
    }

    /// Execute the check for one package: the command line and the output.
    fn check(&self, request: SemverCheckRequest) -> (r: Result<
        (Vec<String>, SemverCheckOutput),
        SemverguardError,
    >)
        ensures
            self.check_gives(request, r),
    ;
}

/// Events reported during a run.
#[derive(Debug)]
pub enum ProgressEvent {
    /// The number of packages to check is known.
    TotalPackages { total: usize },
    /// A package check is starting.
    PackageStarted { name: String, index: usize, total: usize },
    /// A package check completed.
    PackageCompleted { name: String, status: PackageStatus, duration_ms: u128 },
    /// A package was skipped.
    PackageSkipped { name: String, reason: String },
    /// All checks completed.
    Finished { passed: usize, failed: usize, skipped: usize },
}

/// Receives progress events.
pub trait ProgressCallback {
    /// Called when a progress event occurs.
    fn on_progress(&self, event: ProgressEvent);
}

/// The event that opens a run: `total` packages will be checked.
pub fn total_event(total: usize) -> (e: ProgressEvent)
    ensures
        e == (ProgressEvent::TotalPackages { total }),
{
    ProgressEvent::TotalPackages { total }
}

/// The event sent before checking `pkg`, the `index`-th of `total`.
pub fn started_event(pkg: &WorkspacePackage, index: usize, total: usize) -> (e: ProgressEvent)
    ensures
        e matches ProgressEvent::PackageStarted { name, index: i, total: t } && name@ == pkg.name@
            && i == index && t == total,
{
    ProgressEvent::PackageStarted { name: pkg.name.clone(), index, total }
}

/// The event sent after checking a package: its name, status and duration.
pub fn completed_event(report: &PackageReport) -> (e: ProgressEvent)
    ensures
        e matches ProgressEvent::PackageCompleted { name, status, duration_ms } && name@ == report.name@
            && status == report.status && duration_ms == report.duration_ms,
{
    ProgressEvent::PackageCompleted {
        name: report.name.clone(),
        status: report.status,
        duration_ms: report.duration_ms,
    }
}

/// The event that closes a run: the summary's counts.
pub fn finished_event(summary: &Summary) -> (e: ProgressEvent)
    ensures
        e == (ProgressEvent::Finished {
            passed: summary.passed,
            failed: summary.failed,
            skipped: summary.skipped,
        }),
{
    ProgressEvent::Finished { passed: summary.passed, failed: summary.failed, skipped: summary.skipped }
}

/// A progress callback that ignores every event.
pub struct NoopProgressCallback;

impl ProgressCallback for NoopProgressCallback {
    fn on_progress(&self, event: ProgressEvent) {
    }
}

/// A progress callback that hands every event to a closure.
pub struct FnProgressCallback<F: Fn(ProgressEvent) + Send + Sync> {
    callback: F,
}

impl<F: Fn(ProgressEvent) + Send + Sync> FnProgressCallback<F> {
    /// The closure accepts every event.
    #[verifier::type_invariant]
    spec fn accepts_all(self) -> bool {
        forall|e: ProgressEvent| call_requires(self.callback, (e,))
    }

    /// A callback that calls `callback` with each event.
    pub fn new(callback: F) -> (r: Self)
        requires
            forall|e: ProgressEvent| call_requires(callback, (e,)),
        ensures
            r.closure() == callback,
    {
        FnProgressCallback { callback }
    }

    /// The closure events are handed to.
    pub closed spec fn closure(self) -> F {
        self.callback
    }
}

impl<F: Fn(ProgressEvent) + Send + Sync> ProgressCallback for FnProgressCallback<F> {
    fn on_progress(&self, event: ProgressEvent) {
        proof {
            use_type_invariant(self);
        }
        (self.callback)(event)
    }
}

/// A monotonic clock reading.
#[verifier::external_type_specification]
#[verifier::external_body]
pub struct ExInstant(std::time::Instant);

/// `Instant::now`: the current clock reading.
#[verifier::external_body]
fn clock_now() -> std::time::Instant {
    std::time::Instant::now()
}

/// `Instant::elapsed`, in whole milliseconds. Nothing is stated of the value.
#[verifier::external_body]
fn millis_since(t0: &std::time::Instant) -> u128 {
    t0.elapsed().as_millis()
}

/// The output of a run (without timestamps or version decoration).
#[derive(Debug)]
pub struct RunArtifacts {
    /// Workspace root directory.
    pub workspace_root: String,
    /// Per-package results (including skipped).
    pub packages: Vec<PackageReport>,
    /// Summary counts.
    pub summary: Summary,
}

/// Number of reports with the given status.
pub open spec fn count_status(v: Seq<ReportView>, st: PackageStatus) -> nat
    decreases v.len(),
{
    if v.len() == 0 {
        0
    } else {
        count_status(v.drop_last(), st) + if v.last().status == st {
            1nat
        } else {
            0nat
        }
    }
}

/// The views of a list of reports.
pub open spec fn rviews(v: Seq<PackageReport>) -> Seq<ReportView> {
    v.map_values(|p: PackageReport| p@)
}

/// The summary of a list of reports.
pub open spec fn spec_summarize(v: Seq<ReportView>) -> Summary {
    Summary {
        total: v.len() as usize,
        passed: count_status(v, PackageStatus::Passed) as usize,
        failed: count_status(v, PackageStatus::Failed) as usize,
        skipped: count_status(v, PackageStatus::Skipped) as usize,
    }
}

proof fn lemma_count_le(v: Seq<ReportView>, st: PackageStatus)
    ensures
        count_status(v, st) <= v.len(),
    decreases v.len(),
{
    if v.len() > 0 {
        lemma_count_le(v.drop_last(), st);
    }
}

/// Every report has exactly one status.
pub proof fn lemma_counts_sum(v: Seq<ReportView>)
    ensures
        count_status(v, PackageStatus::Passed) + count_status(v, PackageStatus::Failed)
            + count_status(v, PackageStatus::Skipped) == v.len(),
    decreases v.len(),
{
    if v.len() > 0 {
        lemma_counts_sum(v.drop_last());
    }
}

/// Count the statuses of a list of reports.
pub fn summarize(reports: &Vec<PackageReport>) -> (r: Summary)
    ensures
        r == spec_summarize(rviews(reports@)),
{
    let ghost rv = rviews(reports@);
    let mut passed: usize = 0;
    let mut failed: usize = 0;
    let mut skipped: usize = 0;
    let mut i: usize = 0;
    while i < reports.len()
        invariant
            i <= reports.len(),
            rv == rviews(reports@),
            passed == count_status(rv.take(i as int), PackageStatus::Passed),
            failed == count_status(rv.take(i as int), PackageStatus::Failed),
            skipped == count_status(rv.take(i as int), PackageStatus::Skipped),
        decreases reports.len() - i,
    {
        assert(rv.take(i + 1).drop_last() =~= rv.take(i as int));
        assert(rv.take(i + 1).last() == reports@[i as int]@);
        proof {
            lemma_counts_sum(rv.take(i as int));
        }
        match reports[i].status {
            PackageStatus::Passed => passed += 1,
            PackageStatus::Failed => failed += 1,
            PackageStatus::Skipped => skipped += 1,
        }
        i += 1;
    }
    assert(rv.take(reports.len() as int) =~= rv);
    Summary { total: reports.len(), passed, failed, skipped }
}

/// The report of a package that was not checked.
pub open spec fn skip_view(pkg: WorkspacePackage, reason: Seq<char>) -> ReportView {
    ReportView {
        name: pkg.name@,
        version: pkg.version@,
        manifest_path: pkg.manifest_path@,
        status: PackageStatus::Skipped,
        skip_reason: Some(reason),
        duration_ms: 0,
        command: seq![],
        engine: None,
        inferred_required_bump: None,
        failure_kind: None,
        baseline_error: None,
    }
}

/// Build the report of a skipped package.
pub fn skipped(pkg: &WorkspacePackage, reason: &str) -> (r: PackageReport)
    ensures
        r@ == skip_view(*pkg, reason@),
{
    let r = PackageReport {
        name: pkg.name.clone(),
        version: pkg.version.clone(),
        manifest_path: pkg.manifest_path.clone(),
        status: PackageStatus::Skipped,
        skip_reason: Some(owned(reason)),
        duration_ms: 0,
        command: Vec::new(),
        engine: None,
        inferred_required_bump: None,
        failure_kind: None,
        baseline_error: None,
    };
    assert(r@.command =~= Seq::<Seq<char>>::empty());
    r
}

/// Whether `names` holds `n`.
pub open spec fn names_contain(names: Seq<String>, n: Seq<char>) -> bool {
    exists|i: int| 0 <= i < names.len() && (#[trigger] names[i])@ == n
}


/// Whether a list of names holds `n` (executable).
pub fn contains_name(names: &Vec<String>, n: &str) -> (r: bool)
    ensures
        r == names_contain(names@, n@),
{
    let mut i: usize = 0;
    while i < names.len()
        invariant
            i <= names.len(),
            forall|j: int| 0 <= j < i ==> (#[trigger] names@[j])@ != n@,
        decreases names.len() - i,
    {
        if str_eq(names[i].as_str(), n) {
            return true;
        }
        i += 1;
    }
    false
}

/// Why a package fails the publishability or library filters, if it does.
pub open spec fn lib_filter_reason(pkg: WorkspacePackage, scope: ScopeConfig) -> Option<Seq<char>> {
    if scope.skip_publish_false && !pkg.publishable {
        Some("publish = false"@)
    } else if scope.skip_no_lib && !pkg.has_lib {
        Some("no library target"@)
    } else {
        None
    }
}

/// First pass: for each package in order, either a skip (package, reason) or eligibility.
/// With `explicit`, packages not named in `scope.explicit_packages` are dropped silently;
/// otherwise the include/exclude globs apply, with `filtered_reason` as the skip reason.
pub open spec fn static_stage(
    pkgs: Seq<WorkspacePackage>,
    scope: ScopeConfig,
    explicit: bool,
    includes: Option<Seq<Seq<char>>>,
    excludes: Option<Seq<Seq<char>>>,
    filtered_reason: Seq<char>,
) -> (Seq<(WorkspacePackage, Seq<char>)>, Seq<WorkspacePackage>)
    decreases pkgs.len(),
{
    if pkgs.len() == 0 {
        (seq![], seq![])
    } else {
        let (s, e) = static_stage(
            pkgs.drop_last(),
            scope,
            explicit,
            includes,
            excludes,
            filtered_reason,
        );
        let p = pkgs.last();
        if explicit && !names_contain(scope.explicit_packages@, p.name@) {
            (s, e)
        } else if !explicit && !spec_name_filter(p.name@, includes, excludes) {
            (s.push((p, filtered_reason)), e)
        } else {
            match lib_filter_reason(p, scope) {
                Some(r) => (s.push((p, r)), e),
                None => (s, e.push(p)),
            }
        }
    }
}

/// Views of (package, reason) pairs.
pub open spec fn pairs_view(v: Seq<(WorkspacePackage, String)>) -> Seq<(WorkspacePackage, Seq<char>)> {
    v.map_values(|t: (WorkspacePackage, String)| (t.0, t.1@))
}

/// Apply the publishability, library and name filters to the workspace packages.
pub fn static_filter(
    pkgs: &Vec<WorkspacePackage>,
    scope: &ScopeConfig,
    explicit: bool,
    includes: &Option<GlobSet>,
    excludes: &Option<GlobSet>,
    filtered_reason: &str,
) -> (r: (Vec<(WorkspacePackage, String)>, Vec<WorkspacePackage>))
    ensures
        (pairs_view(r.0@), r.1@) == static_stage(
            pkgs@,
            *scope,
            explicit,
            opt_set_globs(*includes),
            opt_set_globs(*excludes),
            filtered_reason@,
        ),
{
    let mut skips: Vec<(WorkspacePackage, String)> = Vec::new();
    let mut eligible: Vec<WorkspacePackage> = Vec::new();
    let mut i: usize = 0;
    while i < pkgs.len()
        invariant
            i <= pkgs.len(),
            (pairs_view(skips@), eligible@) == static_stage(
                pkgs@.take(i as int),
                *scope,
                explicit,
                opt_set_globs(*includes),
                opt_set_globs(*excludes),
                filtered_reason@,
            ),
        decreases pkgs.len() - i,
    {
        assert(pkgs@.take(i + 1).drop_last() =~= pkgs@.take(i as int));
        assert(pkgs@.take(i + 1).last() == pkgs@[i as int]);
        let pkg = &pkgs[i];
        let ghost before = pairs_view(skips@);
        if explicit && !contains_name(&scope.explicit_packages, pkg.name.as_str()) {
        } else if !explicit && !matches_name_filters(pkg.name.as_str(), includes, excludes) {
            skips.push((pkg.clone(), owned(filtered_reason)));
            assert(pairs_view(skips@) =~= before.push((*pkg, filtered_reason@)));
        } else if scope.skip_publish_false && !pkg.publishable {
            skips.push((pkg.clone(), owned("publish = false")));
            assert(pairs_view(skips@) =~= before.push((*pkg, "publish = false"@)));
        } else if scope.skip_no_lib && !pkg.has_lib {
            skips.push((pkg.clone(), owned("no library target")));
            assert(pairs_view(skips@) =~= before.push((*pkg, "no library target"@)));
        } else {
            eligible.push(pkg.clone());
        }
        i += 1;
    }
    assert(pkgs@.take(pkgs.len() as int) =~= pkgs@);
    (skips, eligible)
}

/// Whether no name of `explicit` belongs to a workspace package.
pub open spec fn none_exist(explicit: Seq<String>, pkgs: Seq<WorkspacePackage>) -> bool {
    forall|i: int, j: int|
        0 <= i < explicit.len() && 0 <= j < pkgs.len() ==> (#[trigger] explicit[i])@ != (
        #[trigger] pkgs[j]).name@
}

/// Whether none of the explicitly requested packages exists in the workspace.
pub fn all_requested_missing(explicit: &Vec<String>, pkgs: &Vec<WorkspacePackage>) -> (r: bool)
    ensures
        r == none_exist(explicit@, pkgs@),
{
    let mut j: usize = 0;
    while j < pkgs.len()
        invariant
            j <= pkgs.len(),
            forall|a: int, b: int|
                0 <= a < explicit@.len() && 0 <= b < j ==> (#[trigger] explicit@[a])@ != (
                #[trigger] pkgs@[b]).name@,
        decreases pkgs.len() - j,
    {
        if contains_name(explicit, pkgs[j].name.as_str()) {
            return false;
        }
        j += 1;
    }
    true
}

/// The root of a package relative to the workspace root (as components); the package root
/// itself when it is not under the workspace root.
pub open spec fn rel_root(pkg: WorkspacePackage, ws_root: Seq<char>) -> Seq<Comp> {
    let pc = spec_components(pkg.package_root@);
    let wc = spec_components(ws_root);
    if comps_prefix(wc, pc) {
        pc.skip(wc.len() as int)
    } else {
        pc
    }
}

/// Whether changed path `ch` lies in the package.
pub open spec fn path_in_pkg(ch: Seq<char>, pkg: WorkspacePackage, ws_root: Seq<char>) -> bool {
    comps_prefix(rel_root(pkg, ws_root), norm_comps(spec_components(ch)))
}

/// Whether changed path `ch` lies in some package.
pub open spec fn path_matched(ch: Seq<char>, meta: WorkspaceMetadata) -> bool {
    exists|j: int|
        0 <= j < meta.packages@.len() && path_in_pkg(
            ch,
            #[trigger] meta.packages@[j],
            meta.workspace_root@,
        )
}

/// The names of changed packages: every package when some change lies outside all
/// package roots, else the packages holding a change.
pub open spec fn changed_name(meta: WorkspaceMetadata, paths: Seq<String>, n: Seq<char>) -> bool {
    if exists|i: int| 0 <= i < paths.len() && !path_matched((#[trigger] paths[i])@, meta) {
        exists|j: int| 0 <= j < meta.packages@.len() && (#[trigger] meta.packages@[j]).name@ == n
    } else {
        exists|i: int, j: int|
            0 <= i < paths.len() && 0 <= j < meta.packages@.len() && (
            #[trigger] meta.packages@[j]).name@ == n && path_in_pkg(
                (#[trigger] paths[i])@,
                meta.packages@[j],
                meta.workspace_root@,
            )
    }
}

fn rel_root_exec(pkg: &WorkspacePackage, ws_root: &str) -> (r: Vec<PathComp>)
    ensures
        comps_view(r@) == rel_root(*pkg, ws_root@),
{
    match path_relative_to(pkg.package_root.as_str(), ws_root) {
        Some(v) => v,
        None => path_components(pkg.package_root.as_str()),
    }
}

/// Names of the packages touched by the changed paths.
pub fn changed_packages_from_paths(meta: &WorkspaceMetadata, changed_paths: &Vec<String>) -> (r:
    Vec<String>)
    ensures
        forall|n: Seq<char>| names_contain(r@, n) <==> changed_name(*meta, changed_paths@, n),
{
    let mut roots: Vec<Vec<PathComp>> = Vec::new();
    let mut j: usize = 0;
    while j < meta.packages.len()
        invariant
            j <= meta.packages.len(),
            roots@.len() == j,
            forall|k: int|
                0 <= k < j ==> comps_view((#[trigger] roots@[k])@) == rel_root(
                    meta.packages@[k],
                    meta.workspace_root@,
                ),
        decreases meta.packages.len() - j,
    {
        roots.push(rel_root_exec(&meta.packages[j], meta.workspace_root.as_str()));
        j += 1;
    }
    let mut names: Vec<String> = Vec::new();
    let mut i: usize = 0;
    while i < changed_paths.len()
        invariant
            i <= changed_paths.len(),
            roots@.len() == meta.packages@.len(),
            forall|k: int|
                0 <= k < roots@.len() ==> comps_view((#[trigger] roots@[k])@) == rel_root(
                    meta.packages@[k],
                    meta.workspace_root@,
                ),
            forall|a: int| 0 <= a < i ==> path_matched((#[trigger] changed_paths@[a])@, *meta),
            forall|n: Seq<char>|
                names_contain(names@, n) <==> exists|a: int, b: int|
                    0 <= a < i && 0 <= b < meta.packages@.len() && (
                    #[trigger] meta.packages@[b]).name@ == n && path_in_pkg(
                        (#[trigger] changed_paths@[a])@,
                        meta.packages@[b],
                        meta.workspace_root@,
                    ),
        decreases changed_paths.len() - i,
    {
        let ch = normalize_rel(changed_paths[i].as_str());
        let mut matched_any = false;
        let mut k: usize = 0;
        while k < roots.len()
            invariant
                k <= roots.len(),
                i < changed_paths.len(),
                roots@.len() == meta.packages@.len(),
                comps_view(ch@) == norm_comps(spec_components(changed_paths@[i as int]@)),
                forall|q: int|
                    0 <= q < roots@.len() ==> comps_view((#[trigger] roots@[q])@) == rel_root(
                        meta.packages@[q],
                        meta.workspace_root@,
                    ),
                matched_any == exists|b: int|
                    0 <= b < k && path_in_pkg(
                        changed_paths@[i as int]@,
                        #[trigger] meta.packages@[b],
                        meta.workspace_root@,
                    ),
                forall|n: Seq<char>|
                    names_contain(names@, n) <==> (exists|a: int, b: int|
                        0 <= a < i && 0 <= b < meta.packages@.len() && (
                        #[trigger] meta.packages@[b]).name@ == n && path_in_pkg(
                            (#[trigger] changed_paths@[a])@,
                            meta.packages@[b],
                            meta.workspace_root@,
                        )) || (exists|b: int|
                        0 <= b < k && (#[trigger] meta.packages@[b]).name@ == n && path_in_pkg(
                            changed_paths@[i as int]@,
                            meta.packages@[b],
                            meta.workspace_root@,
                        )),
            decreases roots.len() - k,
        {
            let under = is_under(&ch, &roots[k]);
            assert(under == path_in_pkg(
                changed_paths@[i as int]@,
                meta.packages@[k as int],
                meta.workspace_root@,
            ));
            let ghost names_before = names@;
            if under {
                let ghost before = names@;
                names.push(meta.packages[k].name.clone());
                matched_any = true;
                assert forall|n: Seq<char>| names_contain(names@, n) <==> (names_contain(before, n)
                    || meta.packages@[k as int].name@ == n) by {
                    if names_contain(names@, n) {
                        let t = choose|t: int| 0 <= t < names@.len() && (#[trigger] names@[t])@ == n;
                        if t < before.len() {
                            assert(before[t] == names@[t]);
                        }
                    }
                    if names_contain(before, n) {
                        let t = choose|t: int| 0 <= t < before.len() && (#[trigger] before[t])@ == n;
                        assert(names@[t] == before[t]);
                    }
                    if meta.packages@[k as int].name@ == n {
                        assert(names@[before.len() as int]@ == n);
                    }
                }
            }
            proof {
                assert forall|n: Seq<char>| names_contain(names@, n) <==> ((exists|a: int, b: int|
                    0 <= a < i && 0 <= b < meta.packages@.len() && (
                    #[trigger] meta.packages@[b]).name@ == n && path_in_pkg(
                        (#[trigger] changed_paths@[a])@,
                        meta.packages@[b],
                        meta.workspace_root@,
                    )) || (exists|b: int|
                    0 <= b < k + 1 && (#[trigger] meta.packages@[b]).name@ == n && path_in_pkg(
                        changed_paths@[i as int]@,
                        meta.packages@[b],
                        meta.workspace_root@,
                    ))) by {
                    assert(names_contain(names_before, n) <==> ((exists|a: int, b: int|
                        0 <= a < i && 0 <= b < meta.packages@.len() && (
                        #[trigger] meta.packages@[b]).name@ == n && path_in_pkg(
                            (#[trigger] changed_paths@[a])@,
                            meta.packages@[b],
                            meta.workspace_root@,
                        )) || (exists|b: int|
                        0 <= b < k && (#[trigger] meta.packages@[b]).name@ == n && path_in_pkg(
                            changed_paths@[i as int]@,
                            meta.packages@[b],
                            meta.workspace_root@,
                        ))));
                    if under {
                        assert(names_contain(names@, n) <==> (names_contain(names_before, n)
                            || meta.packages@[k as int].name@ == n));
                    } else {
                        assert(names@ == names_before);
                    }
                    if exists|b: int|
                        0 <= b < k + 1 && (#[trigger] meta.packages@[b]).name@ == n && path_in_pkg(
                            changed_paths@[i as int]@,
                            meta.packages@[b],
                            meta.workspace_root@,
                        ) {
                        let b = choose|b: int|
                            0 <= b < k + 1 && (#[trigger] meta.packages@[b]).name@ == n
                                && path_in_pkg(
                                changed_paths@[i as int]@,
                                meta.packages@[b],
                                meta.workspace_root@,
                            );
                        if b == k {
                            assert(under);
                        }
                    }
                }
                if under {
                    assert(path_in_pkg(
                        changed_paths@[i as int]@,
                        meta.packages@[k as int],
                        meta.workspace_root@,
                    ));
                }
            }
            k += 1;
        }
        if !matched_any {
            let all = all_package_names(meta);
            assert(!exists|b: int|
                0 <= b < meta.packages@.len() && path_in_pkg(
                    changed_paths@[i as int]@,
                    #[trigger] meta.packages@[b],
                    meta.workspace_root@,
                ));
            proof {
                assert(!path_matched(changed_paths@[i as int]@, *meta));
                assert forall|n: Seq<char>| names_contain(all@, n) <==> changed_name(
                    *meta,
                    changed_paths@,
                    n,
                ) by {
                    assert(exists|a: int|
                        0 <= a < changed_paths@.len() && !path_matched(
                            (#[trigger] changed_paths@[a])@,
                            *meta,
                        ));
                }
            }
            return all;
        }
        proof {
            assert(path_matched(changed_paths@[i as int]@, *meta));
            assert forall|n: Seq<char>| names_contain(names@, n) <==> exists|a: int, b: int|
                0 <= a < i + 1 && 0 <= b < meta.packages@.len() && (
                #[trigger] meta.packages@[b]).name@ == n && path_in_pkg(
                    (#[trigger] changed_paths@[a])@,
                    meta.packages@[b],
                    meta.workspace_root@,
                ) by {
                if exists|a: int, b: int|
                    0 <= a < i + 1 && 0 <= b < meta.packages@.len() && (
                    #[trigger] meta.packages@[b]).name@ == n && path_in_pkg(
                        (#[trigger] changed_paths@[a])@,
                        meta.packages@[b],
                        meta.workspace_root@,
                    ) {
                    let (a, b) = choose|a: int, b: int|
                        0 <= a < i + 1 && 0 <= b < meta.packages@.len() && (
                        #[trigger] meta.packages@[b]).name@ == n && path_in_pkg(
                            (#[trigger] changed_paths@[a])@,
                            meta.packages@[b],
                            meta.workspace_root@,
                        );
                    if a == i {
                        assert(meta.packages@[b].name@ == n);
                    }
                }
            }
        }
        i += 1;
    }
    proof {
        assert forall|n: Seq<char>| names_contain(names@, n) <==> changed_name(
            *meta,
            changed_paths@,
            n,
        ) by {
            assert(!exists|a: int|
                0 <= a < changed_paths@.len() && !path_matched(
                    (#[trigger] changed_paths@[a])@,
                    *meta,
                ));
        }
    }
    names
}

/// The names of all workspace packages.
pub fn all_package_names(meta: &WorkspaceMetadata) -> (r: Vec<String>)
    ensures
        forall|n: Seq<char>|
            names_contain(r@, n) <==> exists|j: int|
                0 <= j < meta.packages@.len() && (#[trigger] meta.packages@[j]).name@ == n,
{
    let mut out: Vec<String> = Vec::new();
    let mut j: usize = 0;
    while j < meta.packages.len()
        invariant
            j <= meta.packages.len(),
            out@.len() == j,
            forall|k: int| 0 <= k < j ==> (#[trigger] out@[k])@ == meta.packages@[k].name@,
        decreases meta.packages.len() - j,
    {
        out.push(meta.packages[j].name.clone());
        j += 1;
    }
    assert forall|n: Seq<char>|
        names_contain(out@, n) <==> exists|j: int|
            0 <= j < meta.packages@.len() && (#[trigger] meta.packages@[j]).name@ == n by {
        if names_contain(out@, n) {
            let t = choose|t: int| 0 <= t < out@.len() && (#[trigger] out@[t])@ == n;
            assert(meta.packages@[t].name@ == n);
        }
        if exists|j: int| 0 <= j < meta.packages@.len() && (#[trigger] meta.packages@[j]).name@ == n {
            let t = choose|t: int| 0 <= t < meta.packages@.len() && (#[trigger] meta.packages@[t]).name@ == n;
            assert(out@[t]@ == n);
        }
    }
    out
}

/// Second pass in changed mode: unchanged packages are skipped.
pub open spec fn changed_stage(
    eligible: Seq<WorkspacePackage>,
    changed: Seq<String>,
    rev: Seq<char>,
) -> (Seq<(WorkspacePackage, Seq<char>)>, Seq<WorkspacePackage>)
    decreases eligible.len(),
{
    if eligible.len() == 0 {
        (seq![], seq![])
    } else {
        let (s, e) = changed_stage(eligible.drop_last(), changed, rev);
        let p = eligible.last();
        if names_contain(changed, p.name@) {
            (s, e.push(p))
        } else {
            (s.push((p, "unchanged relative to "@ + rev)), e)
        }
    }
}

/// Split eligible packages into changed ones and skipped unchanged ones.
pub fn scope_changed(eligible: &Vec<WorkspacePackage>, changed: &Vec<String>, rev: &str) -> (r: (
    Vec<(WorkspacePackage, String)>,
    Vec<WorkspacePackage>,
))
    ensures
        (pairs_view(r.0@), r.1@) == changed_stage(eligible@, changed@, rev@),
{
    let mut skips: Vec<(WorkspacePackage, String)> = Vec::new();
    let mut scoped: Vec<WorkspacePackage> = Vec::new();
    let mut i: usize = 0;
    while i < eligible.len()
        invariant
            i <= eligible.len(),
            (pairs_view(skips@), scoped@) == changed_stage(
                eligible@.take(i as int),
                changed@,
                rev@,
            ),
        decreases eligible.len() - i,
    {
        assert(eligible@.take(i + 1).drop_last() =~= eligible@.take(i as int));
        assert(eligible@.take(i + 1).last() == eligible@[i as int]);
        let pkg = &eligible[i];
        if contains_name(changed, pkg.name.as_str()) {
            scoped.push(pkg.clone());
        } else {
            let ghost before = pairs_view(skips@);
            let mut reason = owned("unchanged relative to ");
            push_str(&mut reason, rev);
            skips.push((pkg.clone(), reason));
            assert(pairs_view(skips@) =~= before.push((*pkg, "unchanged relative to "@ + rev@)));
        }
        i += 1;
    }
    assert(eligible@.take(eligible.len() as int) =~= eligible@);
    (skips, scoped)
}

/// Whether `req` is the request for checking `pkg` in workspace `ws_root`: the
/// manifest, and the configuration's cargo binary, baseline, features and extra
/// arguments, with no timeout.
pub open spec fn request_for(req: SemverCheckRequest, ws_root: Seq<char>, pkg: WorkspacePackage, config: SemverguardConfig) -> bool {
    &&& req.workspace_root@ == ws_root
    &&& req.cargo_bin == config.engine.cargo_bin
    &&& req.manifest_path == pkg.manifest_path
    &&& req.baseline == config.baseline
    &&& req.features@ == config.features@
    &&& req.extra_args@ == config.engine.extra_args@
    &&& req.timeout is None
}

/// The request the engine receives for a package.
pub fn build_request(ws_root: &str, pkg: &WorkspacePackage, config: &SemverguardConfig) -> (r:
    SemverCheckRequest)
    ensures
        request_for(r, ws_root@, *pkg, *config),
        r.workspace_root@ == ws_root@,
        r.cargo_bin == config.engine.cargo_bin,
        r.manifest_path == pkg.manifest_path,
        r.baseline == config.baseline,
        r.features@ == config.features@,
        r.extra_args@ == config.engine.extra_args@,
        r.timeout is None,
{
    SemverCheckRequest {
        workspace_root: owned(ws_root),
        cargo_bin: config.engine.cargo_bin.clone(),
        manifest_path: pkg.manifest_path.clone(),
        baseline: config.baseline.clone(),
        features: config.features.clone(),
        extra_args: clone_strings(&config.engine.extra_args),
        timeout: None,
    }
}

/// How a package's engine outcome is classified: a clean run has no failure
/// kind; a failing output or an invocation error is classified (with the baseline
/// cause when the failure is a baseline error).
pub open spec fn outcome_class(
    name: Seq<char>,
    outcome: Result<(Vec<String>, SemverCheckOutput), SemverguardError>,
) -> (Option<FailureKind>, Option<CauseView>) {
    match outcome {
        Ok((_, output)) => if output.success {
            (None, None)
        } else {
            let c = spec_classify(output, Some(name));
            (Some(c.0), c.1)
        },
        Err(e) => {
            let c = spec_classify_engine_error(e.spec_message(), Some(name));
            (Some(c.0), c.1)
        },
    }
}

/// The report of a checked package, given what the engine returned; `cause` is
/// the baseline cause it carries (whose view `outcome_class` fixes).
pub open spec fn outcome_view(
    pkg: WorkspacePackage,
    outcome: Result<(Vec<String>, SemverCheckOutput), SemverguardError>,
    duration_ms: u128,
    cause: Option<BaselineErrorCause>,
) -> ReportView {
    match outcome {
        Ok((command, output)) => ReportView {
            name: pkg.name@,
            version: pkg.version@,
            manifest_path: pkg.manifest_path@,
            status: if output.success {
                PackageStatus::Passed
            } else {
                PackageStatus::Failed
            },
            skip_reason: None,
            duration_ms,
            command: command@.map_values(|c: String| c@),
            engine: Some(output),
            inferred_required_bump: output.required_bump,
            failure_kind: outcome_class(pkg.name@, outcome).0,
            baseline_error: cause,
        },
        Err(e) => ReportView {
            name: pkg.name@,
            version: pkg.version@,
            manifest_path: pkg.manifest_path@,
            status: PackageStatus::Failed,
            skip_reason: Some("engine invocation failed: "@ + e.spec_message()),
            duration_ms,
            command: seq![],
            engine: None,
            inferred_required_bump: None,
            failure_kind: outcome_class(pkg.name@, outcome).0,
            baseline_error: cause,
        },
    }
}

/// Turn an engine outcome into a package report, classifying a failure.
pub fn record_outcome(
    pkg: &WorkspacePackage,
    outcome: Result<(Vec<String>, SemverCheckOutput), SemverguardError>,
    duration_ms: u128,
) -> (r: PackageReport)
    ensures
        r@ == outcome_view(*pkg, outcome, duration_ms, r.baseline_error),
        opt_cause_view(r.baseline_error) == outcome_class(pkg.name@, outcome).1,
{
    match outcome {
        Ok((command, output)) => {
            let (status, kind, cause) = if output.success {
                (PackageStatus::Passed, None, None)
            } else {
                let c = classify_output_detailed(&output, Some(pkg.name.as_str()));
                (PackageStatus::Failed, Some(c.kind), c.baseline_cause)
            };
            let bump = output.required_bump;
            PackageReport {
                name: pkg.name.clone(),
                version: pkg.version.clone(),
                manifest_path: pkg.manifest_path.clone(),
                status,
                skip_reason: None,
                duration_ms,
                command,
                engine: Some(output),
                inferred_required_bump: bump,
                failure_kind: kind,
                baseline_error: cause,
            }
        },
        Err(e) => {
            let c = classify_engine_error_detailed(&e, Some(pkg.name.as_str()));
            let mut reason = owned("engine invocation failed: ");
            let m = e.message();
            push_str(&mut reason, m.as_str());
            let r = PackageReport {
                name: pkg.name.clone(),
                version: pkg.version.clone(),
                manifest_path: pkg.manifest_path.clone(),
                status: PackageStatus::Failed,
                skip_reason: Some(reason),
                duration_ms,
                command: Vec::new(),
                engine: None,
                inferred_required_bump: None,
                failure_kind: Some(c.kind),
                baseline_error: c.baseline_cause,
            };
            assert(r@.command =~= Seq::<Seq<char>>::empty());
            r
        },
    }
}

/// Reports of skipped (package, reason) pairs.
pub open spec fn skips_view(v: Seq<(WorkspacePackage, Seq<char>)>) -> Seq<ReportView> {
    v.map_values(|t: (WorkspacePackage, Seq<char>)| skip_view(t.0, t.1))
}

/// Append skip reports for (package, reason) pairs.
pub fn push_skips(reports: &mut Vec<PackageReport>, skips: &Vec<(WorkspacePackage, String)>)
    ensures
        rviews(final(reports)@) == rviews(old(reports)@) + skips_view(pairs_view(skips@)),
{
    let ghost start = rviews(reports@);
    let mut i: usize = 0;
    while i < skips.len()
        invariant
            i <= skips.len(),
            rviews(reports@) == start + skips_view(pairs_view(skips@.take(i as int))),
        decreases skips.len() - i,
    {
        let ghost before = rviews(reports@);
        let r = skipped(&skips[i].0, skips[i].1.as_str());
        reports.push(r);
        assert(rviews(reports@) =~= before.push(r@));
        assert(skips_view(pairs_view(skips@.take(i + 1))) =~= skips_view(
            pairs_view(skips@.take(i as int)),
        ).push(skip_view(skips@[i as int].0, skips@[i as int].1@)));
        assert(rviews(reports@) =~= start + skips_view(pairs_view(skips@.take(i + 1))));
        i += 1;
    }
    assert(skips@.take(skips.len() as int) =~= skips@);
}

/// Facts that hold of every report the runner produces.
pub open spec fn well_formed_report(r: ReportView) -> bool {
    &&& r.status != PackageStatus::Failed ==> r.failure_kind is None && r.baseline_error is None
    &&& r.status == PackageStatus::Failed ==> r.failure_kind is Some
    &&& r.baseline_error is Some ==> r.failure_kind == Some(FailureKind::BaselineError)
    &&& r.status == PackageStatus::Skipped ==> r.duration_ms == 0 && r.command.len() == 0
        && r.engine is None && r.skip_reason is Some
    &&& r.status == PackageStatus::Passed ==> r.skip_reason is None && engine_says(r, true)
    &&& r.status == PackageStatus::Failed ==> (r.skip_reason is None && engine_says(r, false)) || (
    r.engine is None && invocation_failed(r.skip_reason))
}

/// Whether the report holds engine output with the given success flag.
pub open spec fn engine_says(r: ReportView, success: bool) -> bool {
    match r.engine {
        Some(o) => o.success == success,
        None => false,
    }
}

/// Whether a reason says that the engine could not be invoked.
pub open spec fn invocation_failed(reason: Option<Seq<char>>) -> bool {
    match reason {
        Some(s) => s.len() >= "engine invocation failed: "@.len() && s.take(
            "engine invocation failed: "@.len() as int,
        ) == "engine invocation failed: "@,
        None => false,
    }
}

proof fn lemma_outcome_well_formed(
    pkg: WorkspacePackage,
    outcome: Result<(Vec<String>, SemverCheckOutput), SemverguardError>,
    d: u128,
    cause: Option<BaselineErrorCause>,
)
    requires
        opt_cause_view(cause) == outcome_class(pkg.name@, outcome).1,
    ensures
        well_formed_report(outcome_view(pkg, outcome, d, cause)),
{
    if let Err(e) = outcome {
        let lit = "engine invocation failed: "@;
        assert((lit + e.spec_message()).take(lit.len() as int) =~= lit);
    }
}

proof fn lemma_skips_well_formed(v: Seq<(WorkspacePackage, Seq<char>)>)
    ensures
        forall|i: int| 0 <= i < v.len() ==> well_formed_report(#[trigger] skips_view(v)[i]),
        forall|i: int|
            0 <= i < v.len() ==> (#[trigger] skips_view(v)[i]).status == PackageStatus::Skipped,
        forall|i: int| 0 <= i < v.len() ==> (#[trigger] skips_view(v)[i]).name == v[i].0.name@,
{
    assert forall|i: int| 0 <= i < v.len() implies #[trigger] skips_view(v)[i] == skip_view(
        v[i].0,
        v[i].1,
    ) by {}
}

pub(crate) proof fn lemma_static_explicit(
    pkgs: Seq<WorkspacePackage>,
    scope: ScopeConfig,
    includes: Option<Seq<Seq<char>>>,
    excludes: Option<Seq<Seq<char>>>,
    fr: Seq<char>,
)
    ensures
        forall|i: int|
            0 <= i < static_stage(pkgs, scope, true, includes, excludes, fr).0.len()
                ==> names_contain(
                scope.explicit_packages@,
                (#[trigger] static_stage(pkgs, scope, true, includes, excludes, fr).0[i]).0.name@,
            ),
        forall|i: int|
            0 <= i < static_stage(pkgs, scope, true, includes, excludes, fr).1.len()
                ==> names_contain(
                scope.explicit_packages@,
                (#[trigger] static_stage(pkgs, scope, true, includes, excludes, fr).1[i]).name@,
            ),
    decreases pkgs.len(),
{
    if pkgs.len() > 0 {
        lemma_static_explicit(pkgs.drop_last(), scope, includes, excludes, fr);
        let (s0, e0) = static_stage(pkgs.drop_last(), scope, true, includes, excludes, fr);
        let (s1, e1) = static_stage(pkgs, scope, true, includes, excludes, fr);
        let p = pkgs.last();
        assert forall|i: int| 0 <= i < s1.len() implies names_contain(
            scope.explicit_packages@,
            (#[trigger] s1[i]).0.name@,
        ) by {
            if i < s0.len() {
                assert(s1[i] == s0[i]);
            } else {
                assert(s1[i].0 == p);
            }
        }
        assert forall|i: int| 0 <= i < e1.len() implies names_contain(
            scope.explicit_packages@,
            (#[trigger] e1[i]).name@,
        ) by {
            if i < e0.len() {
                assert(e1[i] == e0[i]);
            } else {
                assert(e1[i] == p);
            }
        }
    }
}

pub(crate) proof fn lemma_changed_names(
    eligible: Seq<WorkspacePackage>,
    changed: Seq<String>,
    rev: Seq<char>,
    names: Seq<String>,
)
    requires
        forall|i: int| 0 <= i < eligible.len() ==> names_contain(names, (#[trigger] eligible[i]).name@),
    ensures
        forall|i: int|
            0 <= i < changed_stage(eligible, changed, rev).0.len() ==> names_contain(
                names,
                (#[trigger] changed_stage(eligible, changed, rev).0[i]).0.name@,
            ),
        forall|i: int|
            0 <= i < changed_stage(eligible, changed, rev).1.len() ==> names_contain(
                names,
                (#[trigger] changed_stage(eligible, changed, rev).1[i]).name@,
            ),
    decreases eligible.len(),
{
    if eligible.len() > 0 {
        assert forall|i: int| 0 <= i < eligible.drop_last().len() implies names_contain(
            names,
            (#[trigger] eligible.drop_last()[i]).name@,
        ) by {
            assert(eligible.drop_last()[i] == eligible[i]);
        }
        lemma_changed_names(eligible.drop_last(), changed, rev, names);
        assert(names_contain(names, eligible.last().name@));
        let (s0, e0) = changed_stage(eligible.drop_last(), changed, rev);
        let (s1, e1) = changed_stage(eligible, changed, rev);
        let p = eligible.last();
        assert forall|i: int| 0 <= i < s1.len() implies names_contain(
            names,
            (#[trigger] s1[i]).0.name@,
        ) by {
            if i < s0.len() {
                assert(s1[i] == s0[i]);
            } else {
                assert(s1[i].0 == p);
            }
        }
        assert forall|i: int| 0 <= i < e1.len() implies names_contain(
            names,
            (#[trigger] e1[i]).name@,
        ) by {
            if i < e0.len() {
                assert(e1[i] == e0[i]);
            } else {
                assert(e1[i] == p);
            }
        }
    }
}

/// The patterns of a filter list: none when the list is empty.
pub open spec fn opt_patterns(v: Seq<String>) -> Option<Seq<Seq<char>>> {
    if v.len() == 0 {
        None
    } else {
        Some(crate::globs::strings_view(v))
    }
}

/// The reason given to packages that the name filters leave out.
pub open spec fn filtered_reason() -> Seq<char> {
    "filtered by include/exclude patterns"@
}

/// Which packages of a workspace are skipped (with their reasons, in order) and which
/// are selected: the static filters first (name filters by `reason` unless packages are
/// listed explicitly), then, in changed mode, the packages whose names `changed` does not
/// hold.
pub open spec fn selection(
    meta: WorkspaceMetadata,
    config: SemverguardConfig,
    changed: Seq<String>,
    explicit: bool,
    reason: Seq<char>,
) -> (Seq<(WorkspacePackage, Seq<char>)>, Seq<WorkspacePackage>) {
    let st = static_stage(
        meta.packages@,
        config.scope,
        explicit,
        if explicit { None } else { opt_patterns(config.scope.includes@) },
        if explicit { None } else { opt_patterns(config.scope.excludes@) },
        reason,
    );
    match config.scope.mode {
        ScopeMode::Workspace => st,
        ScopeMode::Changed => {
            let cs = changed_stage(st.1, changed, config.baseline.rev->0@);
            (st.0 + cs.0, cs.1)
        },
    }
}

/// The skipped packages' reports of a run and the packages it checks (see `selection`).
pub open spec fn run_selection(meta: WorkspaceMetadata, config: SemverguardConfig, changed: Seq<String>) -> (
    Seq<ReportView>,
    Seq<WorkspacePackage>,
) {
    let sel = selection(
        meta,
        config,
        changed,
        config.scope.explicit_packages@.len() > 0,
        filtered_reason(),
    );
    (skips_view(sel.0), sel.1)
}

/// Whether a report is what checking the package produced, for some engine outcome.
pub open spec fn is_outcome_of(r: ReportView, pkg: WorkspacePackage) -> bool {
    exists|
        o: Result<(Vec<String>, SemverCheckOutput), SemverguardError>,
        d: u128,
        c: Option<BaselineErrorCause>,
    |
        #[trigger] outcome_view(pkg, o, d, c) == r && opt_cause_view(c) == outcome_class(pkg.name@, o).1
}

/// Whether `changed` holds exactly the names of the packages touched by `paths`.
pub open spec fn names_of_paths(meta: WorkspaceMetadata, changed: Seq<String>, paths: Seq<String>) -> bool {
    forall|n: Seq<char>| #[trigger] names_contain(changed, n) <==> changed_name(meta, paths, n)
}

/// Whether `changed` holds exactly the names of the packages touched by some list of
/// changed paths.
pub open spec fn changed_names_of(meta: WorkspaceMetadata, changed: Seq<String>) -> bool {
    exists|paths: Seq<String>| #[trigger] names_of_paths(meta, changed, paths)
}

/// The result of a run over workspace `meta`: the skipped packages' reports in order,
/// then one checked report per selected package in order, stopping only after the
/// first failure under fail-fast; the summary counts them.
pub open spec fn run_result_matches(
    a: RunArtifacts,
    meta: WorkspaceMetadata,
    config: SemverguardConfig,
    changed: Seq<String>,
) -> bool {
    let sel = run_selection(meta, config, changed);
    let pk = rviews(a.packages@);
    let k = pk.len() - sel.0.len();
    &&& a.workspace_root == meta.workspace_root
    &&& config.scope.explicit_packages@.len() > 0 ==> !none_exist(
        config.scope.explicit_packages@,
        meta.packages@,
    )
    &&& config.scope.mode == ScopeMode::Changed ==> changed_names_of(meta, changed)
    &&& pk.len() >= sel.0.len()
    &&& pk.take(sel.0.len() as int) == sel.0
    &&& k <= sel.1.len()
    &&& forall|j: int|
        sel.0.len() <= j < pk.len() ==> is_outcome_of(#[trigger] pk[j], sel.1[j - sel.0.len()])
    &&& k < sel.1.len() ==> config.engine.fail_fast && k > 0 && pk.last().status
        == PackageStatus::Failed
    &&& a.summary == spec_summarize(pk)
}

/// The message of a misconfigured changed mode, checked in this order: no baseline
/// revision, a baseline that is not git, no git provider.
pub open spec fn changed_mode_error(config: SemverguardConfig, has_git: bool) -> Option<Seq<char>> {
    if config.scope.mode != ScopeMode::Changed {
        None
    } else if config.baseline.rev is None {
        Some("scope.mode=changed requires baseline.rev"@)
    } else if config.baseline.kind != BaselineKind::Git {
        Some("scope.mode=changed requires baseline.kind = \"git\""@)
    } else if !has_git {
        Some("scope.mode=changed requires a GitProvider"@)
    } else {
        None
    }
}

/// The message when none of the listed packages is in the workspace.
pub open spec fn none_exist_message(explicit: Seq<String>) -> Seq<char> {
    "none of the specified packages exist in workspace: "@ + debug_list(strings_view(explicit))
}

/// Whether `e` is an error of the static filters on workspace `meta`: with packages
/// listed, none of them is in the workspace; without, a name pattern fails to build.
pub open spec fn static_error(meta: WorkspaceMetadata, config: SemverguardConfig, e: SemverguardError) -> bool {
    if config.scope.explicit_packages@.len() > 0 {
        &&& none_exist(config.scope.explicit_packages@, meta.packages@)
        &&& e matches SemverguardError::InvalidConfig(m) && m@ == none_exist_message(
            config.scope.explicit_packages@,
        )
    } else {
        glob_build_error(config.scope.includes@, e) || glob_build_error(config.scope.excludes@, e)
    }
}

/// Whether `e` is an error of package selection on workspace `meta` (after loading):
/// a static filter error, the message of a misconfigured changed mode, or what the
/// git provider gave for the paths changed between the baseline revision and `HEAD`.
pub open spec fn selection_error<G: GitProvider>(
    git: Option<&G>,
    root: Seq<char>,
    meta: WorkspaceMetadata,
    config: SemverguardConfig,
    e: SemverguardError,
) -> bool {
    ||| static_error(meta, config, e)
    ||| changed_mode_error(config, git is Some) matches Some(m) && e matches SemverguardError::InvalidConfig(s)
        && s@ == m
    ||| config.scope.mode == ScopeMode::Changed && changed_mode_error(config, git is Some) is None
        && git->0.changed_gives(root, config.baseline.rev->0@, "HEAD"@, Err(e))
}

/// Whether report `r` of `pkg` is what the engine gave for the request for `pkg` in
/// workspace `ws_root`.
pub open spec fn engine_checked<E: SemverEngine>(
    engine: &E,
    ws_root: Seq<char>,
    config: SemverguardConfig,
    r: ReportView,
    pkg: WorkspacePackage,
) -> bool {
    exists|
        req: SemverCheckRequest,
        o: Result<(Vec<String>, SemverCheckOutput), SemverguardError>,
        d: u128,
        c: Option<BaselineErrorCause>,
    |
        #![trigger request_for(req, ws_root, pkg, config), outcome_view(pkg, o, d, c)]
        request_for(req, ws_root, pkg, config) && engine.check_gives(req, o) && outcome_view(pkg, o, d, c)
            == r && opt_cause_view(c) == outcome_class(pkg.name@, o).1
}

/// Whether the checked reports of a run over `meta` are what the engine gave for the
/// selected packages' requests.
pub open spec fn engine_reports<E: SemverEngine>(
    engine: &E,
    a: RunArtifacts,
    meta: WorkspaceMetadata,
    config: SemverguardConfig,
    changed: Seq<String>,
) -> bool {
    let sel = run_selection(meta, config, changed);
    let pk = rviews(a.packages@);
    forall|j: int|
        sel.0.len() <= j < pk.len() ==> engine_checked(
            engine,
            meta.workspace_root@,
            config,
            #[trigger] pk[j],
            sel.1[j - sel.0.len()],
        )
}

/// In changed mode, `changed` names exactly the packages touched by paths that the
/// git provider gave for the changes between the baseline revision and `HEAD` in
/// `root`.
pub open spec fn changed_from_git<G: GitProvider>(
    git: Option<&G>,
    root: Seq<char>,
    meta: WorkspaceMetadata,
    config: SemverguardConfig,
    changed: Seq<String>,
) -> bool {
    config.scope.mode == ScopeMode::Changed ==> git is Some && exists|p: Vec<String>|
        #[trigger] git->0.changed_gives(root, config.baseline.rev->0@, "HEAD"@, Ok(p))
            && names_of_paths(meta, changed, p@)
}

/// What a run in `root` with ports `ws`, `git` and `engine` gives: on success, the
/// result over metadata the workspace provider gave for `root` (see
/// `run_result_matches`), each checked report being what the engine gave for its
/// package's request; on
/// failure, the workspace provider's error for `root` or a selection error over its
/// metadata. A misconfigured changed mode never succeeds.
pub open spec fn run_outcome<W: WorkspaceProvider, G: GitProvider, E: SemverEngine>(
    ws: &W,
    git: Option<&G>,
    engine: &E,
    root: Seq<char>,
    config: SemverguardConfig,
    r: Result<RunArtifacts, SemverguardError>,
) -> bool {
    &&& r matches Ok(a) ==> exists|meta: WorkspaceMetadata, changed: Seq<String>|
        #[trigger] run_result_matches(a, meta, config, changed) && ws.load_gives(root, Ok(meta))
            && changed_from_git(git, root, meta, config, changed) && engine_reports(
            engine,
            a,
            meta,
            config,
            changed,
        )
    &&& r matches Err(e) ==> ws.load_gives(root, Err(e)) || exists|meta: WorkspaceMetadata|
        #[trigger] ws.load_gives(root, Ok(meta)) && selection_error(git, root, meta, config, e)
    &&& changed_mode_error(config, git is Some) is Some ==> r is Err
}

/// A runner wires ports together and produces a report.
pub struct SemverguardRunner<'a, W, G, E, P> {
    workspace: &'a W,
    git: Option<&'a G>,
    engine: &'a E,
    progress: P,
}

impl<'a, W, G, E, P> SemverguardRunner<'a, W, G, E, P> {
    /// The workspace provider.
    pub closed spec fn workspace_port(&self) -> &'a W {
        self.workspace
    }

    /// The git provider, if any.
    pub closed spec fn git_port(&self) -> Option<&'a G> {
        self.git
    }

    /// The engine.
    pub closed spec fn engine_port(&self) -> &'a E {
        self.engine
    }

    /// The progress callback.
    pub closed spec fn progress_port(&self) -> P {
        self.progress
    }
}

impl<'a, W: WorkspaceProvider, G: GitProvider, E: SemverEngine> SemverguardRunner<
    'a,
    W,
    G,
    E,
    NoopProgressCallback,
> {
    /// Create a new runner (progress events are ignored).
    pub fn new(workspace: &'a W, git: Option<&'a G>, engine: &'a E) -> (r: Self)
        ensures
            r.workspace_port() == workspace,
            r.git_port() == git,
            r.engine_port() == engine,
    {
        SemverguardRunner { workspace, git, engine, progress: NoopProgressCallback }
    }
}

impl<
    'a,
    W: WorkspaceProvider,
    G: GitProvider,
    E: SemverEngine,
    P: ProgressCallback,
> SemverguardRunner<'a, W, G, E, P> {
    /// Create a new runner with a progress callback.
    pub fn with_progress(workspace: &'a W, git: Option<&'a G>, engine: &'a E, progress: P) -> (r:
        Self)
        ensures
            r.workspace_port() == workspace,
            r.git_port() == git,
            r.engine_port() == engine,
            r.progress_port() == progress,
    {
        SemverguardRunner { workspace, git, engine, progress }
    }

    /// Set the progress callback.
    pub fn set_progress(&mut self, progress: P)
        ensures
            final(self).progress_port() == progress,
            final(self).workspace_port() == old(self).workspace_port(),
            final(self).git_port() == old(self).git_port(),
            final(self).engine_port() == old(self).engine_port(),
    {
        self.progress = progress;
    }

    /// Run semver checks.
    pub fn run(&self, workspace_root: &str, config: &SemverguardConfig) -> (r: Result<
        RunArtifacts,
        SemverguardError,
    >)
        ensures
            run_outcome(self.workspace_port(), self.git_port(), self.engine_port(), workspace_root@, *config, r),
            r matches Ok(a) ==> a.summary == spec_summarize(rviews(a.packages@)),
            r matches Ok(a) ==> forall|i: int|
                0 <= i < a.packages@.len() ==> well_formed_report(#[trigger] a.packages@[i]@),
            r matches Ok(a) ==> config.engine.fail_fast ==> forall|i: int|
                0 <= i < a.packages@.len() - 1 ==> (#[trigger] a.packages@[i]).status
                    != PackageStatus::Failed,
            r matches Ok(a) ==> config.scope.explicit_packages@.len() > 0 ==> forall|i: int|
                0 <= i < a.packages@.len() ==> names_contain(
                    config.scope.explicit_packages@,
                    (#[trigger] a.packages@[i]).name@,
                ),
    {
        let loaded = self.workspace.load(workspace_root);
        let metadata = match loaded {
            Ok(m) => m,
            Err(e) => return Err(e),
        };
        let ghost meta = metadata;
        assert(self.workspace.load_gives(workspace_root@, Ok(meta)));
        let ghost mut chg: Seq<String> = seq![];
        let ghost mut gpaths: Option<Vec<String>> = None;
        let explicit = config.scope.explicit_packages.len() > 0;
        let mut reports: Vec<PackageReport> = Vec::new();
        let (include_set, exclude_set) = if explicit {
            if all_requested_missing(&config.scope.explicit_packages, &metadata.packages) {
                let mut m = owned("none of the specified packages exist in workspace: ");
                let listed = crate::text::debug_string_list(&config.scope.explicit_packages);
                push_str(&mut m, listed.as_str());
                assert(m@ == none_exist_message(config.scope.explicit_packages@));
                return Err(SemverguardError::InvalidConfig(m));
            }
            (None, None)
        } else {
            let include_set = match build_globset(&config.scope.includes) {
                Ok(x) => x,
                Err(e) => return Err(e),
            };
            let exclude_set = match build_globset(&config.scope.excludes) {
                Ok(x) => x,
                Err(e) => return Err(e),
            };
            (include_set, exclude_set)
        };
        assert(opt_set_globs(include_set) == if explicit {
            None
        } else {
            opt_patterns(config.scope.includes@)
        });
        assert(opt_set_globs(exclude_set) == if explicit {
            None
        } else {
            opt_patterns(config.scope.excludes@)
        });
        let (skips, eligible) = static_filter(
            &metadata.packages,
            &config.scope,
            explicit,
            &include_set,
            &exclude_set,
            "filtered by include/exclude patterns",
        );
        push_skips(&mut reports, &skips);
        proof {
            let sv = pairs_view(skips@);
            lemma_skips_well_formed(sv);
            if explicit {
                lemma_static_explicit(
                    metadata.packages@,
                    config.scope,
                    opt_set_globs(include_set),
                    opt_set_globs(exclude_set),
                    "filtered by include/exclude patterns"@,
                );
            }
            let st = static_stage(
                metadata.packages@,
                config.scope,
                explicit,
                opt_set_globs(include_set),
                opt_set_globs(exclude_set),
                "filtered by include/exclude patterns"@,
            );
            assert(sv == st.0);
            assert(eligible@ == st.1);
            assert(rviews(reports@) == skips_view(sv));
            assert forall|i: int| #![trigger reports@[i]] 0 <= i < reports@.len() implies well_formed_report(
                reports@[i]@,
            ) && reports@[i].status == PackageStatus::Skipped && (explicit ==> names_contain(
                config.scope.explicit_packages@,
                reports@[i].name@,
            )) by {
                assert(rviews(reports@)[i] == reports@[i]@);
                assert(reports@[i]@ == skips_view(sv)[i]);
                assert(sv[i].0 == skips@[i].0);
                assert(reports@[i].name@ == skips@[i].0.name@);
                if explicit {
                    assert(names_contain(config.scope.explicit_packages@, st.0[i].0.name@));
                }
            }
            assert forall|i: int| explicit && 0 <= i < eligible@.len() implies names_contain(
                config.scope.explicit_packages@,
                (#[trigger] eligible@[i]).name@,
            ) by {
                assert(names_contain(config.scope.explicit_packages@, st.1[i].name@));
            }
        }
        let eligible = match config.scope.mode {
            ScopeMode::Workspace => eligible,
            ScopeMode::Changed => {
                let baseline_rev = match &config.baseline.rev {
                    Some(rev) => rev,
                    None => {
                        return Err(
                            SemverguardError::InvalidConfig(
                                owned("scope.mode=changed requires baseline.rev"),
                            ),
                        );
                    },
                };
                if config.baseline.kind != BaselineKind::Git {
                    return Err(
                        SemverguardError::InvalidConfig(
                            owned("scope.mode=changed requires baseline.kind = \"git\""),
                        ),
                    );
                }
                let git = match self.git {
                    Some(g) => g,
                    None => {
                        return Err(
                            SemverguardError::InvalidConfig(
                                owned("scope.mode=changed requires a GitProvider"),
                            ),
                        );
                    },
                };
                let queried = git.changed_paths(workspace_root, baseline_rev.as_str(), "HEAD");
                let paths = match queried {
                    Ok(p) => p,
                    Err(e) => return Err(e),
                };
                let changed = changed_packages_from_paths(&metadata, &paths);
                proof {
                    assert(names_of_paths(metadata, changed@, paths@));
                    chg = changed@;
                    gpaths = Some(paths);
                }
                let (unchanged, scoped) = scope_changed(&eligible, &changed, baseline_rev.as_str());
                let ghost before = reports@;
                push_skips(&mut reports, &unchanged);
                proof {
                    let uv = pairs_view(unchanged@);
                    lemma_skips_well_formed(uv);
                    if explicit {
                        lemma_changed_names(
                            eligible@,
                            changed@,
                            baseline_rev@,
                            config.scope.explicit_packages@,
                        );
                    }
                    let cs = changed_stage(eligible@, changed@, baseline_rev@);
                    assert(uv == cs.0);
                    assert(scoped@ == cs.1);
                    assert forall|i: int| explicit && 0 <= i < scoped@.len() implies names_contain(
                        config.scope.explicit_packages@,
                        (#[trigger] scoped@[i]).name@,
                    ) by {
                        assert(names_contain(config.scope.explicit_packages@, cs.1[i].name@));
                    }
                    assert(rviews(reports@) == rviews(before) + skips_view(uv));
                    assert(rviews(reports@).len() == reports@.len());
                    assert(rviews(before).len() == before.len());
                    assert(skips_view(uv).len() == uv.len());
                    assert(reports@.len() == before.len() + uv.len());
                    assert forall|i: int| #![trigger reports@[i]] 0 <= i < reports@.len() implies well_formed_report(
                        reports@[i]@,
                    ) && reports@[i].status == PackageStatus::Skipped && (explicit
                        ==> names_contain(config.scope.explicit_packages@, reports@[i].name@)) by {
                        assert(rviews(reports@)[i] == reports@[i]@);
                        if i >= before.len() {
                            let k = i - before.len();
                            assert(reports@[i]@ == skips_view(uv)[k]);
                            assert(uv[k].0 == unchanged@[k].0);
                            assert(reports@[i].name@ == unchanged@[k].0.name@);
                            if explicit {
                                assert(names_contain(
                                    config.scope.explicit_packages@,
                                    cs.0[k].0.name@,
                                ));
                            }
                        } else {
                            assert(rviews(before)[i] == before[i]@);
                            assert(reports@[i]@ == before[i]@);
                        }
                    }
                }
                scoped
            },
        };
        let ghost skipsv = rviews(reports@);
        proof {
            let sel = selection(meta, *config, chg, explicit, filtered_reason());
            if config.scope.mode == ScopeMode::Changed {
                let st = static_stage(
                    meta.packages@,
                    config.scope,
                    explicit,
                    opt_set_globs(include_set),
                    opt_set_globs(exclude_set),
                    filtered_reason(),
                );
                let cs = changed_stage(st.1, chg, config.baseline.rev->0@);
                assert(skips_view(st.0 + cs.0) =~= skips_view(st.0) + skips_view(cs.0));
            }
        }
        assert(run_selection(meta, *config, chg) == (skipsv, eligible@));
        assert(changed_from_git(self.git, workspace_root@, meta, *config, chg)) by {
            if config.scope.mode == ScopeMode::Changed {
                let p = gpaths->0;
                assert(self.git->0.changed_gives(workspace_root@, config.baseline.rev->0@, "HEAD"@, Ok(p)));
            }
        }
        assert forall|i: int| 0 <= i < skipsv.len() implies #[trigger] reports@[i]@ == skipsv[i] by {}
        let total = eligible.len();
        self.progress.on_progress(total_event(total));
        let mut index: usize = 0;
        let mut stop = false;
        while index < eligible.len() && !stop
            invariant
                index <= eligible.len(),
                total == eligible.len(),
                forall|i: int|
                    0 <= i < reports@.len() ==> well_formed_report(#[trigger] reports@[i]@),
                explicit ==> forall|i: int|
                    0 <= i < reports@.len() ==> names_contain(
                        config.scope.explicit_packages@,
                        (#[trigger] reports@[i]).name@,
                    ),
                explicit ==> forall|i: int|
                    0 <= i < eligible@.len() ==> names_contain(
                        config.scope.explicit_packages@,
                        (#[trigger] eligible@[i]).name@,
                    ),
                explicit == (config.scope.explicit_packages@.len() > 0),
                config.engine.fail_fast && !stop ==> forall|i: int|
                    0 <= i < reports@.len() ==> (#[trigger] reports@[i]).status
                        != PackageStatus::Failed,
                config.engine.fail_fast && stop ==> reports@.len() > 0 && forall|i: int|
                    0 <= i < reports@.len() - 1 ==> (#[trigger] reports@[i]).status
                        != PackageStatus::Failed,
                reports@.len() == skipsv.len() + index,
                forall|i: int| 0 <= i < skipsv.len() ==> #[trigger] reports@[i]@ == skipsv[i],
                forall|j: int|
                    skipsv.len() <= j < reports@.len() ==> is_outcome_of(
                        #[trigger] reports@[j]@,
                        eligible@[j - skipsv.len()],
                    ),
                forall|j: int|
                    skipsv.len() <= j < reports@.len() ==> engine_checked(
                        self.engine,
                        meta.workspace_root@,
                        *config,
                        #[trigger] reports@[j]@,
                        eligible@[j - skipsv.len()],
                    ),
                meta == metadata,
                stop ==> config.engine.fail_fast && index > 0 && reports@[reports@.len() - 1].status
                    == PackageStatus::Failed,
            decreases eligible.len() - index,
        {
            let pkg = &eligible[index];
            self.progress.on_progress(started_event(pkg, index, total));
            let t0 = clock_now();
            let request = build_request(metadata.workspace_root.as_str(), pkg, config);
            let result = self.engine.check(request);
            let duration_ms = millis_since(&t0);
            let report = record_outcome(pkg, result, duration_ms);
            proof {
                lemma_outcome_well_formed(*pkg, result, duration_ms, report.baseline_error);
                assert(outcome_view(*pkg, result, duration_ms, report.baseline_error) == report@);
                assert(is_outcome_of(report@, *pkg));
                assert(request_for(request, metadata.workspace_root@, *pkg, *config));
                assert(engine_checked(self.engine, meta.workspace_root@, *config, report@, *pkg));
            }
            let status = report.status;
            self.progress.on_progress(completed_event(&report));
            let ghost before = reports@;
            reports.push(report);
            assert(reports@[reports@.len() - 1] == report);
            assert forall|i: int| 0 <= i < before.len() implies reports@[i] == before[i] by {}
            index += 1;
            if status == PackageStatus::Failed && config.engine.fail_fast {
                stop = true;
            }
        }
        let summary = summarize(&reports);
        self.progress.on_progress(finished_event(&summary));
        let a = RunArtifacts { workspace_root: metadata.workspace_root, packages: reports, summary };
        proof {
            let pk = rviews(a.packages@);
            assert(pk.take(skipsv.len() as int) =~= skipsv);
            assert forall|j: int| skipsv.len() <= j < pk.len() implies is_outcome_of(
                #[trigger] pk[j],
                eligible@[j - skipsv.len()],
            ) by {
                assert(pk[j] == a.packages@[j]@);
            }
            if pk.len() - skipsv.len() < eligible@.len() {
                assert(pk.last() == a.packages@[a.packages@.len() - 1]@);
            }
            assert(run_result_matches(a, meta, *config, chg));
            assert forall|j: int| skipsv.len() <= j < pk.len() implies engine_checked(
                self.engine,
                meta.workspace_root@,
                *config,
                #[trigger] pk[j],
                eligible@[j - skipsv.len()],
            ) by {
                assert(pk[j] == a.packages@[j]@);
            }
            assert(engine_reports(self.engine, a, meta, *config, chg));
        }
        Ok(a)
    }
}


/// A package that would be skipped, from a (package, reason) pair.
pub fn to_skipped_package(pkg: &WorkspacePackage, reason: &String) -> (r: SkippedPackage)
    ensures
        r.name == pkg.name,
        r.version == pkg.version,
        r.manifest_path == pkg.manifest_path,
        r.reason == reason,
{
    SkippedPackage {
        name: pkg.name.clone(),
        version: pkg.version.clone(),
        manifest_path: pkg.manifest_path.clone(),
        reason: reason.clone(),
    }
}

/// A package that would be checked.
pub fn to_listed_package(pkg: &WorkspacePackage) -> (r: ListedPackage)
    ensures
        r.name == pkg.name,
        r.version == pkg.version,
        r.manifest_path == pkg.manifest_path,
{
    ListedPackage {
        name: pkg.name.clone(),
        version: pkg.version.clone(),
        manifest_path: pkg.manifest_path.clone(),
    }
}

/// Views of packages that would be skipped: name, version, manifest, reason.
pub open spec fn skipped_view(v: Seq<SkippedPackage>) -> Seq<(Seq<char>, Seq<char>, Seq<char>, Seq<char>)> {
    v.map_values(|k: SkippedPackage| (k.name@, k.version@, k.manifest_path@, k.reason@))
}

/// The skipped-package views of (package, reason) pairs.
pub open spec fn pairs_skipped(v: Seq<(WorkspacePackage, Seq<char>)>) -> Seq<(Seq<char>, Seq<char>, Seq<char>, Seq<char>)> {
    v.map_values(|t: (WorkspacePackage, Seq<char>)| (t.0.name@, t.0.version@, t.0.manifest_path@, t.1))
}

/// Views of packages that would be checked: name, version, manifest.
pub open spec fn listed_view(v: Seq<ListedPackage>) -> Seq<(Seq<char>, Seq<char>, Seq<char>)> {
    v.map_values(|c: ListedPackage| (c.name@, c.version@, c.manifest_path@))
}

/// The listed-package views of workspace packages.
pub open spec fn pkgs_listed(v: Seq<WorkspacePackage>) -> Seq<(Seq<char>, Seq<char>, Seq<char>)> {
    v.map_values(|p: WorkspacePackage| (p.name@, p.version@, p.manifest_path@))
}

/// The listing of workspace `meta`: what `selection` skips and selects (listed
/// packages take the place of the name filters, as in a run), with the name filters'
/// reason `filtered by include/exclude`.
pub open spec fn list_matches(
    l: ListResult,
    meta: WorkspaceMetadata,
    config: SemverguardConfig,
    changed: Seq<String>,
) -> bool {
    let explicit = config.scope.explicit_packages@.len() > 0;
    let sel = selection(meta, config, changed, explicit, "filtered by include/exclude"@);
    &&& l.workspace_root == meta.workspace_root
    &&& explicit ==> !none_exist(config.scope.explicit_packages@, meta.packages@)
    &&& config.scope.mode == ScopeMode::Changed ==> changed_names_of(meta, changed)
    &&& skipped_view(l.would_skip@) == pairs_skipped(sel.0)
    &&& listed_view(l.would_check@) == pkgs_listed(sel.1)
}

/// What a listing in `root` with ports `ws` and `git` gives: as `run_outcome`, with
/// `list_matches` for the result.
pub open spec fn list_outcome<W: WorkspaceProvider, G: GitProvider>(
    ws: &W,
    git: Option<&G>,
    root: Seq<char>,
    config: SemverguardConfig,
    r: Result<ListResult, SemverguardError>,
) -> bool {
    &&& r matches Ok(l) ==> exists|meta: WorkspaceMetadata, changed: Seq<String>|
        #[trigger] list_matches(l, meta, config, changed) && ws.load_gives(root, Ok(meta))
            && changed_from_git(git, root, meta, config, changed)
    &&& r matches Err(e) ==> ws.load_gives(root, Err(e)) || exists|meta: WorkspaceMetadata|
        #[trigger] ws.load_gives(root, Ok(meta)) && selection_error(git, root, meta, config, e)
    &&& changed_mode_error(config, git is Some) is Some ==> r is Err
}

/// Append the skipped packages of (package, reason) pairs.
pub fn push_would_skip(out: &mut Vec<SkippedPackage>, skips: &Vec<(WorkspacePackage, String)>)
    ensures
        skipped_view(final(out)@) == skipped_view(old(out)@) + pairs_skipped(pairs_view(skips@)),
        final(out)@.len() == old(out)@.len() + skips@.len(),
        forall|i: int| 0 <= i < old(out)@.len() ==> final(out)@[i] == old(out)@[i],
        forall|i: int|
            0 <= i < skips@.len() ==> (#[trigger] final(out)@[old(out)@.len() + i]).name
                == skips@[i].0.name && final(out)@[old(out)@.len() + i].version == skips@[i].0.version
                && final(out)@[old(out)@.len() + i].manifest_path == skips@[i].0.manifest_path
                && final(out)@[old(out)@.len() + i].reason == skips@[i].1,
{
    let ghost start = out@;
    let mut i: usize = 0;
    while i < skips.len()
        invariant
            i <= skips.len(),
            out@.len() == start.len() + i,
            forall|k: int| 0 <= k < start.len() ==> out@[k] == start[k],
            forall|k: int|
                0 <= k < i ==> (#[trigger] out@[start.len() + k]).name == skips@[k].0.name
                    && out@[start.len() + k].version == skips@[k].0.version
                    && out@[start.len() + k].manifest_path == skips@[k].0.manifest_path
                    && out@[start.len() + k].reason == skips@[k].1,
        decreases skips.len() - i,
    {
        let sp = to_skipped_package(&skips[i].0, &skips[i].1);
        out.push(sp);
        i += 1;
    }
    assert(skipped_view(out@) =~= skipped_view(start) + pairs_skipped(pairs_view(skips@))) by {
        assert forall|k: int| 0 <= k < out@.len() implies #[trigger] skipped_view(out@)[k] == (
        skipped_view(start) + pairs_skipped(pairs_view(skips@)))[k] by {
            if k >= start.len() {
                assert(out@[start.len() + (k - start.len())] == out@[k]);
            }
        }
    }
}

impl<
    'a,
    W: WorkspaceProvider,
    G: GitProvider,
    E: SemverEngine,
    P: ProgressCallback,
> SemverguardRunner<'a, W, G, E, P> {
    /// List packages that would be checked without running checks: the same
    /// selection as `run` (listed packages or include/exclude globs, publishability,
    /// library target, change scope).
    pub fn list_packages(&self, workspace_root: &str, config: &SemverguardConfig) -> (r: Result<
        ListResult,
        SemverguardError,
    >)
        ensures
            list_outcome(self.workspace_port(), self.git_port(), workspace_root@, *config, r),
    {
        let loaded = self.workspace.load(workspace_root);
        let metadata = match loaded {
            Ok(m) => m,
            Err(e) => return Err(e),
        };
        let ghost meta = metadata;
        assert(self.workspace.load_gives(workspace_root@, Ok(meta)));
        let ghost mut chg: Seq<String> = seq![];
        let ghost mut gpaths: Option<Vec<String>> = None;
        let explicit = config.scope.explicit_packages.len() > 0;
        let (include_set, exclude_set) = if explicit {
            if all_requested_missing(&config.scope.explicit_packages, &metadata.packages) {
                let mut m = owned("none of the specified packages exist in workspace: ");
                let listed = crate::text::debug_string_list(&config.scope.explicit_packages);
                push_str(&mut m, listed.as_str());
                assert(m@ == none_exist_message(config.scope.explicit_packages@));
                return Err(SemverguardError::InvalidConfig(m));
            }
            (None, None)
        } else {
            let include_set = match build_globset(&config.scope.includes) {
                Ok(x) => x,
                Err(e) => return Err(e),
            };
            let exclude_set = match build_globset(&config.scope.excludes) {
                Ok(x) => x,
                Err(e) => return Err(e),
            };
            (include_set, exclude_set)
        };
        assert(opt_set_globs(include_set) == if explicit {
            None
        } else {
            opt_patterns(config.scope.includes@)
        });
        assert(opt_set_globs(exclude_set) == if explicit {
            None
        } else {
            opt_patterns(config.scope.excludes@)
        });
        let (skips, eligible) = static_filter(
            &metadata.packages,
            &config.scope,
            explicit,
            &include_set,
            &exclude_set,
            "filtered by include/exclude",
        );
        let mut would_skip: Vec<SkippedPackage> = Vec::new();
        push_would_skip(&mut would_skip, &skips);
        let eligible = match config.scope.mode {
            ScopeMode::Workspace => eligible,
            ScopeMode::Changed => {
                let baseline_rev = match &config.baseline.rev {
                    Some(rev) => rev,
                    None => {
                        return Err(
                            SemverguardError::InvalidConfig(
                                owned("scope.mode=changed requires baseline.rev"),
                            ),
                        );
                    },
                };
                if config.baseline.kind != BaselineKind::Git {
                    return Err(
                        SemverguardError::InvalidConfig(
                            owned("scope.mode=changed requires baseline.kind = \"git\""),
                        ),
                    );
                }
                let git = match self.git {
                    Some(g) => g,
                    None => {
                        return Err(
                            SemverguardError::InvalidConfig(
                                owned("scope.mode=changed requires a GitProvider"),
                            ),
                        );
                    },
                };
                let queried = git.changed_paths(workspace_root, baseline_rev.as_str(), "HEAD");
                let paths = match queried {
                    Ok(p) => p,
                    Err(e) => return Err(e),
                };
                let changed = changed_packages_from_paths(&metadata, &paths);
                proof {
                    assert(names_of_paths(metadata, changed@, paths@));
                    chg = changed@;
                    gpaths = Some(paths);
                }
                let (unchanged, scoped) = scope_changed(&eligible, &changed, baseline_rev.as_str());
                push_would_skip(&mut would_skip, &unchanged);
                scoped
            },
        };
        proof {
            let st = static_stage(
                meta.packages@,
                config.scope,
                explicit,
                opt_set_globs(include_set),
                opt_set_globs(exclude_set),
                "filtered by include/exclude"@,
            );
            if config.scope.mode == ScopeMode::Changed {
                let cs = changed_stage(st.1, chg, config.baseline.rev->0@);
                assert(pairs_skipped(st.0 + cs.0) =~= pairs_skipped(st.0) + pairs_skipped(cs.0));
            }
            let sel = selection(meta, *config, chg, explicit, "filtered by include/exclude"@);
            assert(skipped_view(would_skip@) == pairs_skipped(sel.0));
            assert(eligible@ == sel.1);
            if config.scope.mode == ScopeMode::Changed {
                assert(changed_names_of(meta, chg));
            }
        }
        let mut would_check: Vec<ListedPackage> = Vec::new();
        let mut i: usize = 0;
        while i < eligible.len()
            invariant
                i <= eligible.len(),
                would_check@.len() == i,
                listed_view(would_check@) == pkgs_listed(eligible@.take(i as int)),
                meta == metadata,
                skipped_view(would_skip@) == pairs_skipped(
                    selection(meta, *config, chg, explicit, "filtered by include/exclude"@).0,
                ),
                eligible@ == selection(meta, *config, chg, explicit, "filtered by include/exclude"@).1,
                config.scope.mode == ScopeMode::Changed ==> changed_names_of(meta, chg),
                explicit == (config.scope.explicit_packages@.len() > 0),
            decreases eligible.len() - i,
        {
            would_check.push(to_listed_package(&eligible[i]));
            assert(pkgs_listed(eligible@.take(i + 1)) =~= pkgs_listed(eligible@.take(i as int)).push(
                (eligible@[i as int].name@, eligible@[i as int].version@, eligible@[i as int].manifest_path@),
            ));
            assert(listed_view(would_check@) =~= pkgs_listed(eligible@.take(i + 1)));
            i += 1;
        }
        assert(eligible@.take(eligible@.len() as int) =~= eligible@);
        let l = ListResult { workspace_root: metadata.workspace_root, would_check, would_skip };
        assert(list_matches(l, meta, *config, chg));
        assert(changed_from_git(self.git, workspace_root@, meta, *config, chg)) by {
            if config.scope.mode == ScopeMode::Changed {
                let p = gpaths->0;
                assert(self.git->0.changed_gives(workspace_root@, config.baseline.rev->0@, "HEAD"@, Ok(p)));
            }
        }
        let r: Result<ListResult, SemverguardError> = Ok(l);
        assert(list_matches(r->Ok_0, meta, *config, chg));
        r
    }
}

} // verus!
