//! Properties that hold across the library's functions.
use vstd::prelude::*;
use crate::artifacts::{spec_file_name, spec_normalize_receipt_path, spec_sanitize, unsafe_file_char};
use crate::assemble::{
    active_check, all_skipped, finding_key, finding_keys, spec_exit_code_from_receipt, spec_kept,
    spec_sort_findings, spec_verdict_status, spec_waived_findings,
};
use crate::cli::{over_format, over_mode, spec_receipt_run_exit, CheckOverrides};
use crate::findings::{spec_package_finding, kind_or_unknown};
use crate::model::{
    BaselineErrorCause, BaselineErrorPolicy, ErrorAction, FailureKind, OutputFormat, PackageReport, PackageStatus,
    ReportView, RunMode, RunReport, SemverguardConfig, VerdictStatus, WaiverEntry,
};
use crate::order::{char_lex, is_sorted_order, key_lex, lemma_key_lex, lemma_sorted_positions, sorted_positions};
use crate::policy::{has_failed_kind, spec_apply_policy, spec_effective_action, spec_exit_code_from_report};
use crate::receipt::{ArtifactIndex, FindingView, ToolErrorFinding};
use crate::receipt_source::{ReceiptEntry, entry_keys, spec_into_receipts, spec_is_reserved, spec_normalize_path, spec_unreserved};
use crate::runner::{
    changed_stage, count_status, filtered_reason, lemma_counts_sum, opt_patterns, run_selection, selection,
    spec_summarize, static_stage,
};
use crate::model::{ScopeConfig, WorkspaceMetadata, WorkspacePackage};
use crate::text::seq_contains;
use crate::waivers::spec_waive;
use crate::promote::{entry_is_table, entry_str, has_prefix, promoted_entries};
use crate::explain::{spec_lookup, spec_registry, with_check};
use crate::runner::{
    is_outcome_of, lemma_changed_names, lemma_static_explicit, list_matches, names_contain, run_result_matches,
    rviews, RunArtifacts,
};
use crate::model::{BaselineConfig, ListResult, RequiredBump, SemverCheckOutput};
use crate::policy::spec_configured_action;
use crate::assemble::{bump_rank, max_bump, summary_matches};
use crate::receipt::{SummaryData, os};
use crate::sarif::{spec_finding_result, spec_rules};
use crate::waivers::{spec_is_waiver_expired, spec_expiry_date, valid_calendar_date, date_before};
use crate::classification::{combined_output, spec_classify, spec_detect_from_message, spec_extract_revision, CauseView};
use crate::text::match_at;
use crate::findings::{check_of, spec_findings_of};
use crate::assemble::{spec_all_findings, tool_error_views};

verus! {

/// Every package is counted once: passed, failed and skipped add up to the total.
pub proof fn law_summary_partitions(v: Seq<ReportView>)
    ensures
        count_status(v, PackageStatus::Passed) + count_status(v, PackageStatus::Failed) + count_status(
            v,
            PackageStatus::Skipped,
        ) == v.len(),
{
    lemma_counts_sum(v);
}

/// Exit codes of a report are `0`, `1`, `2` or `3`; a failed tool error always
/// gives `1`; SemVer violations (without tool errors) give `2`.
pub proof fn law_report_exit_codes(pkgs: Seq<PackageReport>, mode: RunMode, warn_as_fail: bool)
    ensures
        ({
            let c = spec_exit_code_from_report(pkgs, mode, warn_as_fail);
            0 <= c <= 3
        }),
        has_failed_kind(pkgs, FailureKind::ToolError) ==> spec_exit_code_from_report(pkgs, mode, warn_as_fail) == 1,
        !has_failed_kind(pkgs, FailureKind::ToolError) && has_failed_kind(pkgs, FailureKind::SemverViolation)
            ==> spec_exit_code_from_report(pkgs, mode, warn_as_fail) == 2,
{
}

/// Baseline errors alone exit `0` in the lenient lanes (PR, cockpit) unless
/// warnings fail the run, and `3` otherwise.
pub proof fn law_baseline_only_exit(pkgs: Seq<PackageReport>, mode: RunMode, warn_as_fail: bool)
    requires
        has_failed_kind(pkgs, FailureKind::BaselineError),
        !has_failed_kind(pkgs, FailureKind::ToolError),
        !has_failed_kind(pkgs, FailureKind::SemverViolation),
        !has_failed_kind(pkgs, FailureKind::Unknown),
    ensures
        spec_exit_code_from_report(pkgs, mode, warn_as_fail) == if (mode == RunMode::Pr || mode == RunMode::Cockpit)
            && !warn_as_fail {
            0i32
        } else {
            3i32
        },
{
}

/// Release lanes are strict: a baseline error is never only a warning.
pub proof fn law_release_never_warns(cause: Option<BaselineErrorCause>, p: BaselineErrorPolicy)
    ensures
        spec_effective_action(cause, p, RunMode::Release) != ErrorAction::Warn,
{
}

/// PR and cockpit lanes are lenient: a baseline error never fails the run.
pub proof fn law_lenient_never_fails(cause: Option<BaselineErrorCause>, p: BaselineErrorPolicy, mode: RunMode)
    requires
        mode == RunMode::Pr || mode == RunMode::Cockpit,
    ensures
        spec_effective_action(cause, p, mode) != ErrorAction::Fail,
{
}

/// The baseline policy leaves packages without a baseline error untouched, and in
/// lenient lanes leaves no package failed on its baseline.
pub proof fn law_policy_scope(pkg: ReportView, p: BaselineErrorPolicy, mode: RunMode)
    ensures
        pkg.failure_kind != Some(FailureKind::BaselineError) ==> spec_apply_policy(pkg, p, mode) == pkg,
        (mode == RunMode::Pr || mode == RunMode::Cockpit) && pkg.failure_kind == Some(FailureKind::BaselineError)
            ==> spec_apply_policy(pkg, p, mode).status == PackageStatus::Skipped,
{
}

/// Findings without a waiver.
pub open spec fn unwaived(fs: Seq<FindingView>) -> Seq<FindingView> {
    fs.filter(|f: FindingView| f.waived is None)
}

/// Waived findings do not count towards the verdict.
pub proof fn law_verdict_ignores_waived(fs: Seq<FindingView>, report: Option<RunReport>)
    ensures
        spec_verdict_status(fs, report) == spec_verdict_status(unwaived(fs), report),
{
    let u = unwaived(fs);
    let pred = |f: FindingView| f.waived is None;
    assert(u == fs.filter(pred));
    assert forall|c: Seq<char>| active_check(fs, c) == active_check(u, c) by {
        if active_check(fs, c) {
            let i = choose|i: int| 0 <= i < fs.len() && (#[trigger] fs[i]).waived is None && fs[i].check_id == c;
            fs.lemma_filter_contains(pred, i);
            assert(u.contains(fs[i]));
            let j = choose|j: int| 0 <= j < u.len() && u[j] == fs[i];
            assert(u[j].waived is None && u[j].check_id == c);
        }
        if active_check(u, c) {
            let j = choose|j: int| 0 <= j < u.len() && (#[trigger] u[j]).waived is None && u[j].check_id == c;
            assert(u.contains(u[j]));
            fs.lemma_filter_contains_rev(pred, u[j]);
            let i = choose|i: int| 0 <= i < fs.len() && fs[i] == u[j];
            assert(fs[i].waived is None && fs[i].check_id == c);
        }
    }
    assert(active_check(fs, "tool.runtime"@) == active_check(u, "tool.runtime"@));
    assert(active_check(fs, "semver"@) == active_check(u, "semver"@));
    assert(active_check(fs, "engine"@) == active_check(u, "engine"@));
    assert(active_check(fs, "baseline"@) == active_check(u, "baseline"@));
}

/// No green by omission: a run whose packages were all skipped never passes; it is
/// skipped, or worse.
pub proof fn law_no_green_by_omission(fs: Seq<FindingView>, report: Option<RunReport>)
    requires
        all_skipped(report),
    ensures
        spec_verdict_status(fs, report) != VerdictStatus::Pass,
{
}

/// A failing receipt exits non-zero; passing and skipped receipts exit `0`.
pub proof fn law_receipt_exit_codes(status: VerdictStatus, warn_as_fail: bool, tool_error: bool)
    ensures
        status == VerdictStatus::Fail ==> spec_exit_code_from_receipt(status, warn_as_fail, tool_error) != 0,
        (status == VerdictStatus::Pass || status == VerdictStatus::Skip) ==> spec_exit_code_from_receipt(
            status,
            warn_as_fail,
            tool_error,
        ) == 0,
{
}

/// In the cockpit lane a run whose receipt was written exits `0`, whatever it found.
pub proof fn law_cockpit_written_exits_zero(status: VerdictStatus, warn_as_fail: bool, tool_error: bool)
    ensures
        spec_receipt_run_exit(true, Ok(()), status, warn_as_fail, tool_error) == Ok::<i32, Seq<char>>(0),
{
}

/// The cockpit lane always produces a receipt, whatever the other overrides ask.
pub proof fn law_cockpit_forces_receipt(c: SemverguardConfig, a: CheckOverrides)
    requires
        over_mode(c, a) == RunMode::Cockpit,
    ensures
        over_format(c, a) == OutputFormat::Receipt,
{
}

/// Applying waivers changes no sort key.
proof fn lemma_waive_keeps_key(f: FindingView, waivers: Seq<WaiverEntry>, today: (i32, u8, u8))
    ensures
        finding_key(spec_waive(f, waivers, today)) == finding_key(f),
{
}

/// The findings of a receipt come in key order: errors before warnings before
/// information, then by package, check id, code, fingerprint and message.
pub proof fn law_receipt_findings_ordered(
    report: Option<RunReport>,
    errors: Seq<ToolErrorFinding>,
    artifacts: ArtifactIndex,
    waivers: Seq<WaiverEntry>,
    today: (i32, u8, u8),
    i: int,
    j: int,
)
    requires
        crate::assemble::spec_all_findings(report, errors, artifacts).len() < usize::MAX,
        0 <= i < j < spec_kept(spec_waived_findings(report, errors, artifacts, waivers, today)).len(),
    ensures
        ({
            let fs = spec_kept(spec_waived_findings(report, errors, artifacts, waivers, today));
            &&& key_lex(finding_key(fs[i]), finding_key(fs[j])) <= 0
            &&& fs[i].level.spec_severity_rank() <= fs[j].level.spec_severity_rank()
        }),
{
    let all = crate::assemble::spec_all_findings(report, errors, artifacts);
    let keys = finding_keys(all);
    lemma_sorted_positions(keys);
    let o = sorted_positions(keys);
    let sorted = spec_sort_findings(all);
    let w = spec_waived_findings(report, errors, artifacts, waivers, today);
    let fs = spec_kept(w);
    assert(fs[i] == w[i] && fs[j] == w[j]);
    assert(w[i] == spec_waive(sorted[i], waivers, today));
    assert(w[j] == spec_waive(sorted[j], waivers, today));
    lemma_waive_keeps_key(sorted[i], waivers, today);
    lemma_waive_keeps_key(sorted[j], waivers, today);
    assert(sorted[i] == all[o[i] as int]);
    assert(sorted[j] == all[o[j] as int]);
    assert(entry_before_keys(keys, o, i, j));
    assert(keys[o[i] as int] == finding_key(all[o[i] as int]));
    assert(keys[o[j] as int] == finding_key(all[o[j] as int]));
}

spec fn entry_before_keys(keys: Seq<(u8, Seq<Seq<char>>)>, o: Seq<usize>, i: int, j: int) -> bool {
    crate::order::entry_before(keys, o[i] as int, o[j] as int)
}

/// A receipt keeps at most `MAX_FINDINGS` findings.
pub proof fn law_receipt_findings_bounded(fs: Seq<FindingView>)
    ensures
        spec_kept(fs).len() <= 500,
        fs.len() <= 500 ==> spec_kept(fs) == fs,
{
}

/// Two failed packages with the same name, version and failure kind get the same
/// fingerprint, whatever else differs: findings deduplicate across runs.
pub proof fn law_fingerprint_identifies_package(
    p: PackageReport,
    q: PackageReport,
    root_p: Seq<char>,
    root_q: Seq<char>,
    raws_p: Seq<(Seq<char>, Seq<char>, Option<Seq<char>>, Option<Seq<char>>)>,
    raws_q: Seq<(Seq<char>, Seq<char>, Option<Seq<char>>, Option<Seq<char>>)>,
)
    requires
        p.name@ == q.name@,
        p.version@ == q.version@,
        kind_or_unknown(p.failure_kind) == kind_or_unknown(q.failure_kind),
    ensures
        spec_package_finding(p, root_p, raws_p).fingerprint == spec_package_finding(q, root_q, raws_q).fingerprint,
{
}

/// Receipts handed out by a source are never in reserved directories and come in
/// order of normalized path.
pub proof fn law_receipt_source_output(es: Seq<ReceiptEntry>, i: int, j: int)
    requires
        spec_unreserved(es).len() < usize::MAX,
        0 <= i < spec_into_receipts(es).len(),
        0 <= j < spec_into_receipts(es).len(),
        i < j,
    ensures
        !spec_is_reserved(spec_normalize_path(spec_into_receipts(es)[i].path@)),
        char_lex(
            spec_normalize_path(spec_into_receipts(es)[i].path@),
            spec_normalize_path(spec_into_receipts(es)[j].path@),
        ) <= 0,
{
    let kept = spec_unreserved(es);
    let keys = entry_keys(kept);
    lemma_sorted_positions(keys);
    let o = sorted_positions(keys);
    lemma_unreserved(es);
    let out = spec_into_receipts(es);
    assert(out[i] == kept[o[i] as int]);
    assert(out[j] == kept[o[j] as int]);
    assert(entry_before_keys(keys, o, i, j));
    let a = spec_normalize_path(kept[o[i] as int].path@);
    let b = spec_normalize_path(kept[o[j] as int].path@);
    assert(keys[o[i] as int] == (0u8, seq![a]));
    assert(keys[o[j] as int] == (0u8, seq![b]));
    crate::order::lemma_char_lex_eq(a, b);
    assert(seq![a].drop_first() =~= Seq::<Seq<char>>::empty());
    assert(seq![b].drop_first() =~= Seq::<Seq<char>>::empty());
}

proof fn lemma_unreserved(es: Seq<ReceiptEntry>)
    ensures
        forall|k: int|
            0 <= k < spec_unreserved(es).len() ==> !spec_is_reserved(spec_normalize_path(#[trigger] spec_unreserved(es)[k].path@)),
    decreases es.len(),
{
    if es.len() > 0 {
        lemma_unreserved(es.drop_last());
    }
}

/// Sanitized file name components keep their length and hold no path separator
/// or character that file systems refuse.
pub proof fn law_sanitize_safe(s: Seq<char>)
    ensures
        spec_sanitize(s).len() == s.len(),
        forall|i: int| 0 <= i < s.len() ==> !unsafe_file_char(#[trigger] spec_sanitize(s)[i]),
{
}

/// A receipt path still holding `..` is one whose own file name is missing or
/// holds `..` itself: a path escaping the workspace is otherwise cut to its file name.
pub proof fn law_receipt_path_traversal_guard(root: Seq<char>, path: Seq<char>)
    ensures
        seq_contains(spec_normalize_receipt_path(root, path), seq!['.', '.']) ==> match spec_file_name(path) {
            Some(f) => seq_contains(f, seq!['.', '.']),
            None => true,
        },
{
}


/// The static filters select and skip the same packages whatever reason they give
/// for the name filter.
proof fn lemma_static_reason_free(
    pkgs: Seq<WorkspacePackage>,
    scope: ScopeConfig,
    explicit: bool,
    includes: Option<Seq<Seq<char>>>,
    excludes: Option<Seq<Seq<char>>>,
    r1: Seq<char>,
    r2: Seq<char>,
)
    ensures
        static_stage(pkgs, scope, explicit, includes, excludes, r1).1 == static_stage(
            pkgs,
            scope,
            explicit,
            includes,
            excludes,
            r2,
        ).1,
        static_stage(pkgs, scope, explicit, includes, excludes, r1).0.map_values(
            |t: (WorkspacePackage, Seq<char>)| t.0,
        ) == static_stage(pkgs, scope, explicit, includes, excludes, r2).0.map_values(
            |t: (WorkspacePackage, Seq<char>)| t.0,
        ),
    decreases pkgs.len(),
{
    if pkgs.len() > 0 {
        lemma_static_reason_free(pkgs.drop_last(), scope, explicit, includes, excludes, r1, r2);
        let a = static_stage(pkgs.drop_last(), scope, explicit, includes, excludes, r1).0;
        let b = static_stage(pkgs.drop_last(), scope, explicit, includes, excludes, r2).0;
        let p = pkgs.last();
        assert(a.push((p, r1)).map_values(|t: (WorkspacePackage, Seq<char>)| t.0) =~= a.map_values(
            |t: (WorkspacePackage, Seq<char>)| t.0,
        ).push(p));
        assert(b.push((p, r2)).map_values(|t: (WorkspacePackage, Seq<char>)| t.0) =~= b.map_values(
            |t: (WorkspacePackage, Seq<char>)| t.0,
        ).push(p));
        let r = crate::runner::lib_filter_reason(p, scope);
        if let Some(x) = r {
            assert(a.push((p, x)).map_values(|t: (WorkspacePackage, Seq<char>)| t.0) =~= a.map_values(
                |t: (WorkspacePackage, Seq<char>)| t.0,
            ).push(p));
            assert(b.push((p, x)).map_values(|t: (WorkspacePackage, Seq<char>)| t.0) =~= b.map_values(
                |t: (WorkspacePackage, Seq<char>)| t.0,
            ).push(p));
        }
    }
}

/// Listing previews a run: the packages a listing shows as checked are the ones the
/// run checks, in the same order, and it skips the same packages in the same order
/// (only the name filter's reason differs).
pub proof fn law_list_previews_run(meta: WorkspaceMetadata, config: SemverguardConfig, changed: Seq<String>)
    ensures
        ({
            let explicit = config.scope.explicit_packages@.len() > 0;
            &&& selection(meta, config, changed, explicit, "filtered by include/exclude"@).1
                == run_selection(meta, config, changed).1
            &&& selection(meta, config, changed, explicit, "filtered by include/exclude"@).0.map_values(
                |t: (WorkspacePackage, Seq<char>)| t.0,
            ) == selection(meta, config, changed, explicit, filtered_reason()).0.map_values(
                |t: (WorkspacePackage, Seq<char>)| t.0,
            )
        }),
{
    let explicit = config.scope.explicit_packages@.len() > 0;
    let inc = if explicit { None } else { opt_patterns(config.scope.includes@) };
    let exc = if explicit { None } else { opt_patterns(config.scope.excludes@) };
    let r1 = "filtered by include/exclude"@;
    let r2 = filtered_reason();
    lemma_static_reason_free(meta.packages@, config.scope, explicit, inc, exc, r1, r2);
    let s1 = static_stage(meta.packages@, config.scope, explicit, inc, exc, r1);
    let s2 = static_stage(meta.packages@, config.scope, explicit, inc, exc, r2);
    if config.scope.mode == crate::model::ScopeMode::Changed {
        let cs = changed_stage(s1.1, changed, config.baseline.rev->0@);
        assert((s1.0 + cs.0).map_values(|t: (WorkspacePackage, Seq<char>)| t.0) =~= s1.0.map_values(
            |t: (WorkspacePackage, Seq<char>)| t.0,
        ) + cs.0.map_values(|t: (WorkspacePackage, Seq<char>)| t.0));
        assert((s2.0 + cs.0).map_values(|t: (WorkspacePackage, Seq<char>)| t.0) =~= s2.0.map_values(
            |t: (WorkspacePackage, Seq<char>)| t.0,
        ) + cs.0.map_values(|t: (WorkspacePackage, Seq<char>)| t.0));
    }
}

/// Promotion sets `baseline.rev` to the new revision, leaves `baseline` a table,
/// keeps a `baseline.kind` that was set (and sets `"git"` otherwise), and keeps every
/// entry outside `baseline` as it was.
pub proof fn law_promotion_scope(
    es: Map<Seq<Seq<char>>, (bool, Option<Seq<char>>)>,
    rev: Seq<char>,
    p: Seq<Seq<char>>,
)
    requires
        !(es.contains_key(seq!["baseline"@]) && !es[seq!["baseline"@]].0),
    ensures
        entry_str(promoted_entries(es, rev), seq!["baseline"@, "rev"@]) == Some(rev),
        entry_is_table(promoted_entries(es, rev), seq!["baseline"@]),
        es.contains_key(seq!["baseline"@, "kind"@]) ==> promoted_entries(es, rev).contains_key(
            seq!["baseline"@, "kind"@],
        ) && promoted_entries(es, rev)[seq!["baseline"@, "kind"@]] == es[seq!["baseline"@, "kind"@]],
        !es.contains_key(seq!["baseline"@, "kind"@]) ==> entry_str(
            promoted_entries(es, rev),
            seq!["baseline"@, "kind"@],
        ) == Some("git"@),
        !has_prefix(p, seq!["baseline"@]) ==> (promoted_entries(es, rev).contains_key(p)
            == es.contains_key(p) && (es.contains_key(p) ==> promoted_entries(es, rev)[p] == es[p])),
{
    let b = seq!["baseline"@];
    let bk = seq!["baseline"@, "kind"@];
    let br = seq!["baseline"@, "rev"@];
    assert(br.take(1) =~= b);
    assert(bk.take(1) =~= b);
    assert(b != br && b != bk && bk != br) by {
        assert(b.len() != br.len());
        assert(b.len() != bk.len());
        reveal_strlit("kind");
        reveal_strlit("rev");
        assert(bk[1].len() == 4 && br[1].len() == 3);
    }
    assert(!has_prefix(b, br));
    assert(!has_prefix(b, bk));
    assert(!has_prefix(bk, br)) by {
        assert(bk.take(2) =~= bk);
    }
    if !has_prefix(p, b) {
        if has_prefix(p, br) {
            assert(p.take(2).take(1) =~= p.take(1));
        }
        if has_prefix(p, bk) {
            assert(p.take(2).take(1) =~= p.take(1));
        }
        assert(p != b && p != br && p != bk) by {
            if p == br {
                assert(p.take(1) =~= b);
            }
            if p == bk {
                assert(p.take(1) =~= b);
            }
            if p == b {
                assert(p.take(1) =~= b);
            }
        }
    }
}


/// Whether a check id and code have an explanation in the registry.
pub open spec fn explained(check_id: Seq<char>, code: Seq<char>) -> bool {
    spec_lookup(check_id, code) is Some
}

proof fn lemma_check_of_explained(k: FailureKind)
    ensures
        explained(check_of(k).0, check_of(k).1),
{
}

proof fn lemma_findings_of_explained(
    sorted: Seq<PackageReport>,
    root: Seq<char>,
    raws: Seq<(Seq<char>, Seq<char>, Option<Seq<char>>, Option<Seq<char>>)>,
)
    ensures
        forall|i: int|
            0 <= i < spec_findings_of(sorted, root, raws).len() ==> explained(
                (#[trigger] spec_findings_of(sorted, root, raws)[i]).check_id,
                spec_findings_of(sorted, root, raws)[i].code,
            ),
    decreases sorted.len(),
{
    if sorted.len() > 0 {
        lemma_findings_of_explained(sorted.drop_last(), root, raws);
        lemma_check_of_explained(kind_or_unknown(sorted.last().failure_kind));
        let f = spec_package_finding(sorted.last(), root, raws);
        assert(f.check_id == check_of(kind_or_unknown(sorted.last().failure_kind)).0);
        assert(f.code == check_of(kind_or_unknown(sorted.last().failure_kind)).1);
    }
}

/// Every finding a receipt emits has an explanation in the registry: its check id
/// and code are one of the registry's pairs.
pub proof fn law_receipt_findings_explained(
    report: Option<RunReport>,
    errors: Seq<ToolErrorFinding>,
    artifacts: ArtifactIndex,
    waivers: Seq<WaiverEntry>,
    today: (i32, u8, u8),
    i: int,
)
    requires
        spec_all_findings(report, errors, artifacts).len() < usize::MAX,
        0 <= i < spec_kept(spec_waived_findings(report, errors, artifacts, waivers, today)).len(),
    ensures
        explained(
            spec_kept(spec_waived_findings(report, errors, artifacts, waivers, today))[i].check_id,
            spec_kept(spec_waived_findings(report, errors, artifacts, waivers, today))[i].code,
        ),
{
    let all = spec_all_findings(report, errors, artifacts);
    let keys = finding_keys(all);
    lemma_sorted_positions(keys);
    let o = sorted_positions(keys);
    let sorted = spec_sort_findings(all);
    let w = spec_waived_findings(report, errors, artifacts, waivers, today);
    let fs = spec_kept(w);
    assert(fs[i] == w[i]);
    assert(w[i] == spec_waive(sorted[i], waivers, today));
    assert(sorted[i] == all[o[i] as int]);
    let k = o[i] as int;
    assert(0 <= k < all.len());
    let from_report = match report {
        Some(r) => crate::findings::spec_build_findings(r, artifacts),
        None => seq![],
    };
    if k < from_report.len() {
        let r = report->0;
        lemma_findings_of_explained(
            crate::artifacts::sorted_packages(r.packages@),
            r.workspace_root@,
            crate::receipt::raws_view(artifacts.raw_logs@),
        );
        assert(all[k] == from_report[k]);
    } else {
        assert(all[k] == tool_error_views(errors)[k - from_report.len()]);
    }
}

/// Listing the explanations of a check id agrees with looking one up: a code has an
/// explanation under the check id exactly when one of the listed entries has that
/// code, and the entry looked up is among them.
pub proof fn law_check_listing_agrees_with_lookup(check_id: Seq<char>, code: Seq<char>)
    ensures
        explained(check_id, code) <==> exists|i: int|
            0 <= i < with_check(spec_registry(), check_id).len() && (#[trigger] with_check(
                spec_registry(),
                check_id,
            )[i]).1 == code,
        spec_lookup(check_id, code) matches Some(e) ==> with_check(spec_registry(), check_id).contains(e),
{
    let reg = spec_registry();
    let wc = with_check(reg, check_id);
    lemma_with_check(reg, check_id);
    if explained(check_id, code) {
        let e = spec_lookup(check_id, code)->0;
        let j: int = if reg[0].0 == check_id && reg[0].1 == code {
            0
        } else if reg[1].0 == check_id && reg[1].1 == code {
            1
        } else if reg[2].0 == check_id && reg[2].1 == code {
            2
        } else {
            3
        };
        assert(reg[j] == e && e.0 == check_id && e.1 == code);
        assert(wc.contains(reg[j]));
        let i = choose|i: int| 0 <= i < wc.len() && wc[i] == reg[j];
        assert(wc[i].1 == code);
    }
    if exists|i: int| 0 <= i < wc.len() && (#[trigger] wc[i]).1 == code {
        let i = choose|i: int| 0 <= i < wc.len() && (#[trigger] wc[i]).1 == code;
        let j = choose|j: int| 0 <= j < reg.len() && reg[j] == wc[i];
        assert(reg[j].0 == check_id && reg[j].1 == code);
        assert(explained(check_id, code));
    }
}

/// The entries `with_check` keeps are the entries with the check id.
proof fn lemma_with_check(
    es: Seq<(Seq<char>, Seq<char>, Seq<char>, Seq<char>, Seq<Seq<char>>, Seq<Seq<char>>, Seq<char>)>,
    check_id: Seq<char>,
)
    ensures
        forall|i: int|
            0 <= i < with_check(es, check_id).len() ==> (#[trigger] with_check(es, check_id)[i]).0
                == check_id && exists|j: int| 0 <= j < es.len() && es[j] == with_check(es, check_id)[i],
        forall|j: int| 0 <= j < es.len() && (#[trigger] es[j]).0 == check_id ==> with_check(es, check_id).contains(es[j]),
    decreases es.len(),
{
    if es.len() > 0 {
        let prev = es.drop_last();
        lemma_with_check(prev, check_id);
        let wp = with_check(prev, check_id);
        let w = with_check(es, check_id);
        assert forall|i: int| 0 <= i < w.len() implies (#[trigger] w[i]).0 == check_id && exists|j: int|
            0 <= j < es.len() && es[j] == w[i] by {
            if i < wp.len() {
                assert(w[i] == wp[i]);
                let j = choose|j: int| 0 <= j < prev.len() && prev[j] == wp[i];
                assert(es[j] == prev[j]);
            } else {
                assert(w[i] == es.last());
                assert(es[es.len() - 1] == w[i]);
            }
        }
        assert forall|j: int| 0 <= j < es.len() && (#[trigger] es[j]).0 == check_id implies w.contains(es[j]) by {
            if j < prev.len() {
                assert(prev[j] == es[j]);
                assert(wp.contains(prev[j]));
                let i = choose|i: int| 0 <= i < wp.len() && wp[i] == prev[j];
                assert(w[i] == wp[i]);
            } else {
                assert(w[w.len() - 1] == es[j]);
            }
        }
    }
}


/// With packages listed explicitly, a selection holds only listed packages.
proof fn lemma_selection_explicit(
    meta: WorkspaceMetadata,
    config: SemverguardConfig,
    changed: Seq<String>,
    reason: Seq<char>,
)
    requires
        config.scope.explicit_packages@.len() > 0,
    ensures
        forall|i: int|
            0 <= i < selection(meta, config, changed, true, reason).0.len() ==> names_contain(
                config.scope.explicit_packages@,
                (#[trigger] selection(meta, config, changed, true, reason).0[i]).0.name@,
            ),
        forall|i: int|
            0 <= i < selection(meta, config, changed, true, reason).1.len() ==> names_contain(
                config.scope.explicit_packages@,
                (#[trigger] selection(meta, config, changed, true, reason).1[i]).name@,
            ),
{
    lemma_static_explicit(meta.packages@, config.scope, None, None, reason);
    let st = static_stage(meta.packages@, config.scope, true, None, None, reason);
    if config.scope.mode == crate::model::ScopeMode::Changed {
        let rev = config.baseline.rev->0@;
        lemma_changed_names(st.1, changed, rev, config.scope.explicit_packages@);
        let cs = changed_stage(st.1, changed, rev);
        let sel = selection(meta, config, changed, true, reason);
        assert forall|i: int| 0 <= i < sel.0.len() implies names_contain(
            config.scope.explicit_packages@,
            (#[trigger] sel.0[i]).0.name@,
        ) by {
            if i < st.0.len() {
                assert(sel.0[i] == st.0[i]);
            } else {
                assert(sel.0[i] == cs.0[i - st.0.len()]);
            }
        }
    }
}

/// A listing and a run over the same workspace metadata and changed packages agree:
/// without fail-fast, the listing shows as checked exactly the packages the run
/// reports after its skipped ones, in order, and, with packages listed explicitly,
/// no other package appears in the listing or the run.
pub proof fn law_listing_agrees_with_run(
    a: RunArtifacts,
    l: ListResult,
    meta: WorkspaceMetadata,
    config: SemverguardConfig,
    changed: Seq<String>,
)
    requires
        run_result_matches(a, meta, config, changed),
        list_matches(l, meta, config, changed),
        !config.engine.fail_fast,
    ensures
        l.would_check@.map_values(|c: crate::model::ListedPackage| c.name@) == rviews(a.packages@).skip(
            run_selection(meta, config, changed).0.len() as int,
        ).map_values(|r: ReportView| r.name),
        config.scope.explicit_packages@.len() > 0 ==> (forall|i: int|
            0 <= i < l.would_check@.len() ==> names_contain(
                config.scope.explicit_packages@,
                (#[trigger] l.would_check@[i]).name@,
            )) && (forall|i: int|
            0 <= i < l.would_skip@.len() ==> names_contain(
                config.scope.explicit_packages@,
                (#[trigger] l.would_skip@[i]).name@,
            )) && (forall|i: int|
            0 <= i < a.packages@.len() ==> names_contain(
                config.scope.explicit_packages@,
                (#[trigger] a.packages@[i]).name@,
            )),
{
    let explicit = config.scope.explicit_packages@.len() > 0;
    law_list_previews_run(meta, config, changed);
    let lsel = selection(meta, config, changed, explicit, "filtered by include/exclude"@);
    let rsel = run_selection(meta, config, changed);
    let k = rsel.0.len();
    let pk = rviews(a.packages@);
    let checked = pk.skip(k as int);
    assert(lsel.1 == rsel.1);
    assert(checked.len() == rsel.1.len());
    assert(crate::runner::listed_view(l.would_check@) == crate::runner::pkgs_listed(lsel.1));
    assert forall|i: int| 0 <= i < checked.len() implies #[trigger] checked[i].name == rsel.1[i].name@ by {
        assert(checked[i] == pk[k + i]);
        assert(is_outcome_of(pk[k + i], rsel.1[i]));
    }
    assert(l.would_check@.map_values(|c: crate::model::ListedPackage| c.name@) =~= checked.map_values(
        |r: ReportView| r.name,
    )) by {
        assert(crate::runner::listed_view(l.would_check@).len() == l.would_check@.len());
        assert(crate::runner::pkgs_listed(lsel.1).len() == lsel.1.len());
        assert forall|i: int| 0 <= i < l.would_check@.len() implies #[trigger] l.would_check@[i].name@
            == checked[i].name by {
            assert(crate::runner::listed_view(l.would_check@)[i] == crate::runner::pkgs_listed(lsel.1)[i]);
            assert(lsel.1[i] == rsel.1[i]);
            assert(checked[i].name == rsel.1[i].name@);
        }
    }
    if explicit {
        lemma_selection_explicit(meta, config, changed, "filtered by include/exclude"@);
        lemma_selection_explicit(meta, config, changed, filtered_reason());
        assert forall|i: int| 0 <= i < l.would_check@.len() implies names_contain(
            config.scope.explicit_packages@,
            (#[trigger] l.would_check@[i]).name@,
        ) by {
            assert(crate::runner::listed_view(l.would_check@)[i] == crate::runner::pkgs_listed(lsel.1)[i]);
        }
        assert forall|i: int| 0 <= i < l.would_skip@.len() implies names_contain(
            config.scope.explicit_packages@,
            (#[trigger] l.would_skip@[i]).name@,
        ) by {
            assert(crate::runner::skipped_view(l.would_skip@).len() == l.would_skip@.len());
            assert(crate::runner::pairs_skipped(lsel.0).len() == lsel.0.len());
            assert(crate::runner::skipped_view(l.would_skip@)[i] == crate::runner::pairs_skipped(lsel.0)[i]);
            assert(names_contain(config.scope.explicit_packages@, lsel.0[i].0.name@));
        }
        assert forall|i: int| 0 <= i < a.packages@.len() implies names_contain(
            config.scope.explicit_packages@,
            (#[trigger] a.packages@[i]).name@,
        ) by {
            assert(pk[i] == a.packages@[i]@);
            if i < k {
                assert(pk[i] == rsel.0[i]);
                assert(rsel.0[i] == crate::runner::skips_view(
                    selection(meta, config, changed, true, filtered_reason()).0,
                )[i]);
            } else {
                assert(is_outcome_of(pk[i], rsel.1[i - k]));
            }
        }
    }
}


/// Each baseline error cause is governed by its own `on_error` setting: a crate
/// missing from the baseline by `new_crate`, a shallow clone by `shallow_clone`, a
/// failed rustdoc by `rustdoc_failure`, an unpublished crate by `not_published`;
/// a missing revision or merge base, any other cause, or none by `missing_revision`.
pub proof fn law_policy_setting_per_cause(cause: Option<BaselineErrorCause>, p: BaselineErrorPolicy)
    ensures
        cause matches Some(BaselineErrorCause::CrateAbsentFromBaseline { .. }) ==> spec_configured_action(cause, p)
            == p.new_crate,
        cause matches Some(BaselineErrorCause::ShallowClone { .. }) ==> spec_configured_action(cause, p)
            == p.shallow_clone,
        cause matches Some(BaselineErrorCause::RustdocGenerationFailed { .. }) ==> spec_configured_action(
            cause,
            p,
        ) == p.rustdoc_failure,
        cause matches Some(BaselineErrorCause::NotPublished { .. }) ==> spec_configured_action(cause, p)
            == p.not_published,
        cause matches Some(BaselineErrorCause::RevisionNotFound { .. }) ==> spec_configured_action(cause, p)
            == p.missing_revision,
        cause matches Some(BaselineErrorCause::MergeBaseNotFound { .. }) ==> spec_configured_action(cause, p)
            == p.missing_revision,
        cause matches Some(BaselineErrorCause::Other { .. }) ==> spec_configured_action(cause, p)
            == p.missing_revision,
        cause is None ==> spec_configured_action(cause, p) == p.missing_revision,
{
}

/// A package whose baseline error the policy says to skip ends skipped, in every
/// lane, with no failure kind and no baseline error left; in particular an
/// unpublished crate is skipped whenever `not_published` is `skip`.
pub proof fn law_skip_setting_skips_package(pkg: ReportView, p: BaselineErrorPolicy, mode: RunMode)
    requires
        pkg.failure_kind == Some(FailureKind::BaselineError),
        spec_configured_action(pkg.baseline_error, p) == ErrorAction::Skip
            || (pkg.baseline_error matches Some(BaselineErrorCause::NotPublished { .. })
            && p.not_published == ErrorAction::Skip),
    ensures
        spec_apply_policy(pkg, p, mode).status == PackageStatus::Skipped,
        spec_apply_policy(pkg, p, mode).failure_kind is None,
        spec_apply_policy(pkg, p, mode).baseline_error is None,
        spec_apply_policy(pkg, p, mode).skip_reason matches Some(r) && r.take(18) == "baseline skipped: "@,
{
    law_policy_setting_per_cause(pkg.baseline_error, p);
    reveal_strlit("baseline skipped: ");
}

/// Whether bump `c` is no larger than bump `b` in the order major > minor > patch >
/// unknown.
pub open spec fn bump_at_most(c: RequiredBump, b: RequiredBump) -> bool {
    match b {
        RequiredBump::Major => true,
        RequiredBump::Minor => c != RequiredBump::Major,
        RequiredBump::Patch => c == RequiredBump::Patch || c == RequiredBump::Unknown,
        RequiredBump::Unknown => c == RequiredBump::Unknown,
    }
}

proof fn lemma_rank_order(c: RequiredBump, b: RequiredBump)
    ensures
        bump_at_most(c, b) <==> bump_rank(c) <= bump_rank(b),
{
}

proof fn lemma_max_bump(pk: Seq<PackageReport>)
    ensures
        max_bump(pk) is None <==> forall|i: int| 0 <= i < pk.len() ==> (#[trigger] pk[i]).inferred_required_bump is None,
        max_bump(pk) matches Some(b) ==> (exists|i: int| 0 <= i < pk.len() && (#[trigger] pk[i]).inferred_required_bump
            == Some(b)) && forall|j: int|
            0 <= j < pk.len() && (#[trigger] pk[j]).inferred_required_bump is Some ==> bump_at_most(
                pk[j].inferred_required_bump->0,
                b,
            ),
    decreases pk.len(),
{
    if pk.len() > 0 {
        let prev = pk.drop_last();
        lemma_max_bump(prev);
        assert forall|i: int| 0 <= i < prev.len() implies prev[i] == pk[i] by {}
        let last = pk.last();
        match last.inferred_required_bump {
            None => {
                if max_bump(pk) is None {
                    assert forall|i: int| 0 <= i < pk.len() implies (#[trigger] pk[i]).inferred_required_bump is None by {
                        if i < prev.len() {
                            assert(prev[i] == pk[i]);
                        }
                    }
                }
                if let Some(b) = max_bump(pk) {
                    let i = choose|i: int| 0 <= i < prev.len() && (#[trigger] prev[i]).inferred_required_bump == Some(b);
                    assert(pk[i] == prev[i]);
                    assert forall|j: int|
                        0 <= j < pk.len() && (#[trigger] pk[j]).inferred_required_bump is Some implies bump_at_most(
                            pk[j].inferred_required_bump->0,
                            b,
                        ) by {
                        if j < prev.len() {
                            assert(prev[j] == pk[j]);
                        }
                    }
                }
            },
            Some(lb) => {
                assert(pk[pk.len() - 1].inferred_required_bump == Some(lb));
                let b = max_bump(pk)->0;
                assert forall|j: int|
                    0 <= j < pk.len() && (#[trigger] pk[j]).inferred_required_bump is Some implies bump_at_most(
                        pk[j].inferred_required_bump->0,
                        b,
                    ) by {
                    let c = pk[j].inferred_required_bump->0;
                    lemma_rank_order(c, b);
                    lemma_rank_order(lb, b);
                    if j < prev.len() {
                        assert(prev[j] == pk[j]);
                        let pb = max_bump(prev)->0;
                        lemma_rank_order(c, pb);
                    }
                }
                if max_bump(prev) is Some {
                    let pb = max_bump(prev)->0;
                    if bump_rank(pb) > bump_rank(lb) {
                        let i = choose|i: int| 0 <= i < prev.len() && (#[trigger] prev[i]).inferred_required_bump == Some(pb);
                        assert(pk[i] == prev[i]);
                    }
                }
            },
        }
    }
}

/// The largest required bump of a receipt summary is the largest bump any package
/// requires in the order major > minor > patch > unknown: none when no package
/// requires one, `major` whenever some package requires a major bump, and otherwise
/// a bump some package requires that no package's bump exceeds.
pub proof fn law_max_required_bump(s: SummaryData, report: RunReport, baseline: BaselineConfig)
    requires
        summary_matches(s, report, baseline),
    ensures
        (forall|i: int| 0 <= i < report.packages@.len() ==> (#[trigger] report.packages@[i]).inferred_required_bump is None)
            ==> s.max_required_bump is None,
        (exists|i: int| 0 <= i < report.packages@.len() && (#[trigger] report.packages@[i]).inferred_required_bump
            == Some(RequiredBump::Major)) ==> os(s.max_required_bump) == Some("major"@),
        s.max_required_bump is Some ==> exists|i: int|
            0 <= i < report.packages@.len() && (#[trigger] report.packages@[i]).inferred_required_bump is Some
                && os(s.max_required_bump) == Some(
                crate::findings::bump_text(report.packages@[i].inferred_required_bump->0),
            ) && forall|j: int|
                0 <= j < report.packages@.len() && (#[trigger] report.packages@[j]).inferred_required_bump is Some
                    ==> bump_at_most(
                    report.packages@[j].inferred_required_bump->0,
                    report.packages@[i].inferred_required_bump->0,
                ),
{
    let pk = report.packages@;
    lemma_max_bump(pk);
    if let Some(b) = max_bump(pk) {
        if exists|i: int| 0 <= i < pk.len() && (#[trigger] pk[i]).inferred_required_bump == Some(RequiredBump::Major) {
            let i = choose|i: int| 0 <= i < pk.len() && (#[trigger] pk[i]).inferred_required_bump == Some(RequiredBump::Major);
            assert(bump_at_most(RequiredBump::Major, b));
        }
        let i = choose|i: int| 0 <= i < pk.len() && (#[trigger] pk[i]).inferred_required_bump == Some(b);
        assert(pk[i].inferred_required_bump == Some(b));
    }
}

/// A SemVer finding whose data names a `major`, `minor` or `patch` bump becomes a
/// SARIF result under the rule for that bump (`semverguard/<bump>-bump-required`),
/// at the default level the rule table gives that rule.
pub proof fn law_semver_rule_follows_bump(f: FindingView)
    requires
        f.check_id == "semver"@,
        f.data matches Some(d) && d.required_bump matches Some(b) && (b == "major"@ || b == "minor"@ || b
            == "patch"@),
    ensures
        spec_finding_result(f).rule_id == "semverguard/"@ + f.data->0.required_bump->0 + "-bump-required"@,
        exists|i: int|
            0 <= i < spec_rules().len() && (#[trigger] spec_rules()[i]).0 == spec_finding_result(f).rule_id
                && spec_rules()[i].5 == Some(spec_finding_result(f).level),
{
    reveal_strlit("semver");
    reveal_strlit("baseline");
    reveal_strlit("tool");
    reveal_strlit("major");
    reveal_strlit("minor");
    reveal_strlit("patch");
    reveal_strlit("semverguard/");
    reveal_strlit("-bump-required");
    reveal_strlit("semverguard/major-bump-required");
    reveal_strlit("semverguard/minor-bump-required");
    reveal_strlit("semverguard/patch-bump-required");
    let b = f.data->0.required_bump->0;
    let r = spec_rules();
    assert("semver"@.len() != "baseline"@.len() && "semver"@.len() != "tool"@.len());
    if b == "major"@ {
        assert("semverguard/"@ + b + "-bump-required"@ =~= "semverguard/major-bump-required"@);
        assert(r[1].0 == spec_finding_result(f).rule_id);
    } else if b == "minor"@ {
        assert("semverguard/"@ + b + "-bump-required"@ =~= "semverguard/minor-bump-required"@);
        assert(r[2].0 == spec_finding_result(f).rule_id);
    } else {
        assert("semverguard/"@ + b + "-bump-required"@ =~= "semverguard/patch-bump-required"@);
        assert(r[3].0 == spec_finding_result(f).rule_id);
    }
}

/// The position of a date in calendar order, for months and days in range.
pub open spec fn date_key(y: int, m: int, d: int) -> int {
    y * 10000 + m * 100 + d
}

/// A waiver whose expiry is a real date expires exactly when that date comes
/// strictly before today in the calendar: a later year, month or day of today than
/// of the expiry, compared year first.
pub proof fn law_waiver_expiry_is_calendar_order(s: Seq<char>, today: (i32, u8, u8))
    requires
        spec_expiry_date(s) matches Some(d) && valid_calendar_date(d.0, d.1, d.2),
        valid_calendar_date(today.0 as int, today.1 as int, today.2 as int),
    ensures
        ({
            let d = spec_expiry_date(s)->0;
            spec_is_waiver_expired(Some(s), today) <==> date_key(d.0, d.1, d.2) < date_key(
                today.0 as int,
                today.1 as int,
                today.2 as int,
            )
        }),
{
}

proof fn lemma_contains_suffix(hay: Seq<char>)
    requires
        seq_contains(hay, "bad revision"@),
    ensures
        seq_contains(hay, "revision"@),
{
    reveal_strlit("bad revision");
    reveal_strlit("revision");
    assert("bad revision"@.subrange(4, 12) =~= "revision"@);
    lemma_contains_inner(hay, "bad revision"@, "revision"@, 4);
}

/// A message reporting a bad revision (and no shallow clone, which takes
/// precedence) describes a missing baseline revision, named by the quoted
/// revision when the message has one.
pub proof fn law_bad_revision_is_revision_not_found(hay: Seq<char>, crate_name: Option<Seq<char>>)
    requires
        seq_contains(hay, "bad revision"@),
        !seq_contains(hay, "shallow"@),
    ensures
        spec_detect_from_message(hay, crate_name) == Some(
            CauseView::RevisionNotFound {
                rev: match spec_extract_revision(hay) {
                    Some(r) => r,
                    None => "unknown"@,
                },
            },
        ),
{
    lemma_contains_suffix(hay);
}

/// An engine run that exits with code 2 (or none) without a required bump, whose
/// output reports a bad revision and no shallow clone, is a baseline error caused
/// by a missing revision, not a tool error.
pub proof fn law_bad_revision_output_is_baseline_error(output: SemverCheckOutput, crate_name: Option<Seq<char>>)
    requires
        output.required_bump is None,
        output.exit_code == Some(2i32) || output.exit_code is None,
        seq_contains(combined_output(output.stdout@, output.stderr@), "bad revision"@),
        !seq_contains(combined_output(output.stdout@, output.stderr@), "shallow"@),
    ensures
        spec_classify(output, crate_name).0 == FailureKind::BaselineError,
        spec_classify(output, crate_name).1 matches Some(CauseView::RevisionNotFound { .. }),
{
    law_bad_revision_is_revision_not_found(combined_output(output.stdout@, output.stderr@), crate_name);
}


proof fn lemma_contains_inner(hay: Seq<char>, outer: Seq<char>, inner: Seq<char>, at: int)
    requires
        seq_contains(hay, outer),
        0 <= at,
        at + inner.len() <= outer.len(),
        outer.subrange(at, at + inner.len()) == inner,
    ensures
        seq_contains(hay, inner),
{
    let i = choose|i: int| #[trigger] match_at(hay, outer, i);
    assert(hay.subrange(i + at, i + at + inner.len()) =~= hay.subrange(i, i + outer.len()).subrange(
        at,
        at + inner.len(),
    ));
    assert(match_at(hay, inner, i + at));
}

/// A message reporting an unknown revision (and no shallow clone) describes a
/// missing baseline revision; a message about a shallow clone that mentions the
/// baseline describes a shallow clone, whatever else it says.
pub proof fn law_revision_and_shallow_messages(hay: Seq<char>, crate_name: Option<Seq<char>>)
    ensures
        seq_contains(hay, "unknown revision"@) && !seq_contains(hay, "shallow"@) ==> spec_detect_from_message(
            hay,
            crate_name,
        ) matches Some(CauseView::RevisionNotFound { .. }),
        seq_contains(hay, "shallow"@) && seq_contains(hay, "baseline"@) ==> spec_detect_from_message(
            hay,
            crate_name,
        ) matches Some(CauseView::ShallowClone { .. }),
{
    if seq_contains(hay, "unknown revision"@) {
        reveal_strlit("unknown revision");
        reveal_strlit("revision");
        assert("unknown revision"@.subrange(8, 16) =~= "revision"@);
        lemma_contains_inner(hay, "unknown revision"@, "revision"@, 8);
    }
}

} // verus!
