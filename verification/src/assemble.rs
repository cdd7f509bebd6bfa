//! Building a receipt from a run report: ordering, waivers, truncation, verdict,
//! summary and exit code.
use vstd::prelude::*;
use crate::findings::{spec_build_findings, build_findings};
use crate::globs::strings_view;
use crate::classification::opt_str_view;
use crate::model::{
    BaselineConfig, BaselineKind, FailureKind, FindingLevel, PackageReport, PackageStatus, RequiredBump,
    RunReport, VerdictStatus, WaiverEntry,
};
use crate::order::{SortKey, keys_view, sort_order, sorted_positions};
use crate::receipt::{
    clone_finding, ArtifactIndex, CapabilityContext, Finding, FindingView, RawLogRef, RunInfo, SemverguardData,
    SensorReportV1, SummaryData, ToolErrorFinding, ToolInfo, Verdict, cap_view, findings_view, os,
    raws_view, spec_baseline_capability, spec_git_capability, MAX_FINDINGS,
};
use crate::text::{chars_of, owned, str_eq};
use crate::waivers::{apply_waivers, spec_waive, today_utc};

verus! {

/// The version this library reports for itself.
pub const TOOL_VERSION: &'static str = "0.1.0";

/// What `time::OffsetDateTime::parse` with the RFC 3339 format gives for a text,
/// as nanoseconds since the Unix epoch, or nothing when the text is not RFC 3339.
pub uninterp spec fn rfc3339_nanos(text: Seq<char>) -> Option<i128>;

/// `time::OffsetDateTime::parse` with `Rfc3339`, read as Unix nanoseconds.
#[verifier::external_body]
fn parse_rfc3339_nanos(text: &str) -> (r: Option<i128>)
    ensures
        r == rfc3339_nanos(text@),
{
    match time::OffsetDateTime::parse(text, &time::format_description::well_known::Rfc3339) {
        Ok(t) => Some(t.unix_timestamp_nanos()),
        Err(_) => None,
    }
}

/// The current time as RFC 3339 (or Unix seconds when it cannot be formatted),
/// from `time::OffsetDateTime::now_utc`. Nothing is promised of the value.
#[verifier::external_body]
pub(crate) fn now_rfc3339() -> (r: String) {
    let now = time::OffsetDateTime::now_utc();
    match now.format(&time::format_description::well_known::Rfc3339) {
        Ok(s) => s,
        Err(_) => now.unix_timestamp().to_string(),
    }
}

/// Whole milliseconds from `start` to `end` (truncated toward zero), when both are
/// RFC 3339 and `end` is not more than a millisecond before `start`.
pub open spec fn spec_duration_ms(start: Seq<char>, end: Seq<char>) -> Option<u128> {
    match (rfc3339_nanos(start), rfc3339_nanos(end)) {
        (Some(a), Some(b)) => {
            let d = b - a;
            if d < i128::MIN || d > i128::MAX {
                None
            } else if d >= 0 {
                Some((d / 1000000) as u128)
            } else if d > -1000000 {
                Some(0)
            } else {
                None
            }
        },
        _ => None,
    }
}

/// Whole milliseconds from `start` to `end` (see `spec_duration_ms`).
pub fn duration_ms_from_strings(start: &str, end: &str) -> (r: Option<u128>)
    ensures
        r == spec_duration_ms(start@, end@),
{
    let s = match parse_rfc3339_nanos(start) {
        Some(v) => v,
        None => return None,
    };
    let e = match parse_rfc3339_nanos(end) {
        Some(v) => v,
        None => return None,
    };
    let d = match e.checked_sub(s) {
        Some(d) => d,
        None => return None,
    };
    if d >= 0 {
        Some((d / 1000000) as u128)
    } else if d > -1000000 {
        Some(0)
    } else {
        None
    }
}

/// The package a finding is about (empty for tool errors).
pub open spec fn finding_package(f: FindingView) -> Seq<char> {
    match f.data {
        Some(d) => d.package,
        None => seq![],
    }
}

/// The sort key of a finding: severity (errors first), package, check id, code,
/// fingerprint, message.
pub open spec fn finding_key(f: FindingView) -> (u8, Seq<Seq<char>>) {
    (
        f.level.spec_severity_rank(),
        seq![
            finding_package(f),
            f.check_id,
            f.code,
            match f.fingerprint {
                Some(x) => x,
                None => seq![],
            },
            f.message,
        ],
    )
}

/// The sort keys of findings.
pub open spec fn finding_keys(fs: Seq<FindingView>) -> Seq<(u8, Seq<Seq<char>>)> {
    fs.map_values(|f: FindingView| finding_key(f))
}

/// Findings in key order, equal keys in input order.
pub open spec fn spec_sort_findings(fs: Seq<FindingView>) -> Seq<FindingView> {
    sorted_positions(finding_keys(fs)).map_values(|i: usize| fs[i as int])
}

fn finding_sort_key(f: &Finding) -> (r: SortKey)
    ensures
        (r.rank, r.parts@.map_values(|p: Vec<char>| p@)) == finding_key(f@),
{
    let mut parts: Vec<Vec<char>> = Vec::new();
    match &f.data {
        Some(d) => parts.push(chars_of(d.package.as_str())),
        None => parts.push(Vec::new()),
    }
    parts.push(chars_of(f.check_id.as_str()));
    parts.push(chars_of(f.code.as_str()));
    match &f.fingerprint {
        Some(x) => parts.push(chars_of(x.as_str())),
        None => parts.push(Vec::new()),
    }
    parts.push(chars_of(f.message.as_str()));
    let k = SortKey { rank: f.level.severity_rank(), parts };
    assert(k.parts@.map_values(|p: Vec<char>| p@) =~= finding_key(f@).1);
    k
}

/// Findings in key order: severity (errors first), then package, check id, code,
/// fingerprint and message; equal keys keep their order.
pub fn sort_findings(fs: Vec<Finding>) -> (r: Vec<Finding>)
    ensures
        findings_view(r@) == spec_sort_findings(findings_view(fs@)),
{
    let ghost fv = findings_view(fs@);
    let mut keys: Vec<SortKey> = Vec::new();
    let mut i: usize = 0;
    while i < fs.len()
        invariant
            i <= fs.len(),
            fv == findings_view(fs@),
            keys_view(keys@) == finding_keys(fv).take(i as int),
        decreases fs.len() - i,
    {
        let k = finding_sort_key(&fs[i]);
        let ghost before = keys_view(keys@);
        keys.push(k);
        assert(keys_view(keys@) =~= before.push(finding_key(fv[i as int])));
        assert(finding_keys(fv).take(i + 1) =~= finding_keys(fv).take(i as int).push(finding_key(fv[i as int])));
        i += 1;
    }
    assert(finding_keys(fv).take(fs.len() as int) =~= finding_keys(fv));
    let order = sort_order(&keys);
    let ghost sorted = spec_sort_findings(fv);
    let n = order.len();
    let mut out: Vec<Finding> = Vec::new();
    let mut k: usize = 0;
    while k < n
        invariant
            n == order.len(),
            n == fv.len(),
            fv == findings_view(fs@),
            k <= n,
            order@ == sorted_positions(finding_keys(fv)),
            forall|q: int| 0 <= q < n ==> #[trigger] order@[q] < n,
            findings_view(out@) == sorted.take(k as int),
            sorted == spec_sort_findings(fv),
        decreases n - k,
    {
        let f = clone_finding(&fs[order[k]]);
        let ghost before = findings_view(out@);
        assert(sorted[k as int] == fv[order@[k as int] as int]);
        assert(fv[order@[k as int] as int] == fs@[order@[k as int] as int]@);
        out.push(f);
        assert(findings_view(out@) =~= before.push(f@));
        assert(sorted.take(k + 1) =~= sorted.take(k as int).push(sorted[k as int]));
        k += 1;
    }
    assert(sorted.take(n as int) =~= sorted);
    out
}

/// Whether some unwaived finding has the given check id.
pub open spec fn active_check(fs: Seq<FindingView>, check: Seq<char>) -> bool {
    exists|i: int| 0 <= i < fs.len() && (#[trigger] fs[i]).waived is None && fs[i].check_id == check
}

/// Whether some finding is waived.
pub open spec fn any_waived(fs: Seq<FindingView>) -> bool {
    exists|i: int| 0 <= i < fs.len() && (#[trigger] fs[i]).waived is Some
}

/// Whether the report checked nothing: it has packages and all were skipped.
pub open spec fn all_skipped(report: Option<RunReport>) -> bool {
    match report {
        Some(r) => r.summary.total > 0 && r.summary.total == r.summary.skipped,
        None => false,
    }
}

/// `t` when `b`, else nothing.
pub open spec fn when(b: bool, t: Seq<char>) -> Seq<Seq<char>> {
    if b {
        seq![t]
    } else {
        seq![]
    }
}

/// The verdict reasons, in a fixed order.
pub open spec fn spec_verdict_reasons(fs: Seq<FindingView>, report: Option<RunReport>, was_truncated: bool) -> Seq<Seq<char>> {
    when(active_check(fs, "semver"@), "semver_violation"@) + when(active_check(fs, "baseline"@), "baseline_unavailable"@)
        + when(active_check(fs, "tool.runtime"@), "tool_error"@) + when(active_check(fs, "engine"@), "engine_error"@)
        + when(was_truncated, "truncated"@) + when(all_skipped(report), "all_packages_skipped"@) + when(
        any_waived(fs),
        "waived"@,
    )
}

/// The verdict status: fail on an unwaived tool, SemVer or engine finding; else warn
/// on an unwaived baseline finding; else skip when every package was skipped; else pass.
pub open spec fn spec_verdict_status(fs: Seq<FindingView>, report: Option<RunReport>) -> VerdictStatus {
    if active_check(fs, "tool.runtime"@) || active_check(fs, "semver"@) || active_check(fs, "engine"@) {
        VerdictStatus::Fail
    } else if active_check(fs, "baseline"@) {
        VerdictStatus::Warn
    } else if all_skipped(report) {
        VerdictStatus::Skip
    } else {
        VerdictStatus::Pass
    }
}

fn push_reason(v: &mut Vec<String>, b: bool, t: &str)
    ensures
        strings_view(final(v)@) == strings_view(old(v)@) + when(b, t@),
{
    let ghost before = strings_view(v@);
    if b {
        v.push(owned(t));
        assert(strings_view(v@) =~= before + seq![t@]);
    } else {
        assert(strings_view(v@) =~= before + seq![]);
    }
}

/// The verdict of a list of findings: its status and reasons. Waived findings do
/// not count towards the status.
pub fn derive_verdict(findings: &Vec<Finding>, report: Option<&RunReport>, was_truncated: bool) -> (r: (
    VerdictStatus,
    Vec<String>,
))
    ensures
        r.0 == spec_verdict_status(findings_view(findings@), match report {
            Some(x) => Some(*x),
            None => None,
        }),
        strings_view(r.1@) == spec_verdict_reasons(findings_view(findings@), match report {
            Some(x) => Some(*x),
            None => None,
        }, was_truncated),
{
    let ghost fv = findings_view(findings@);
    let mut has_tool = false;
    let mut has_semver = false;
    let mut has_engine = false;
    let mut has_baseline = false;
    let mut has_waived = false;
    proof {
        reveal_strlit("tool.runtime");
        reveal_strlit("baseline");
        reveal_strlit("semver");
        reveal_strlit("engine");
    }
    let mut i: usize = 0;
    while i < findings.len()
        invariant
            i <= findings.len(),
            fv == findings_view(findings@),
            has_tool == active_check(fv.take(i as int), "tool.runtime"@),
            has_semver == active_check(fv.take(i as int), "semver"@),
            has_engine == active_check(fv.take(i as int), "engine"@),
            has_baseline == active_check(fv.take(i as int), "baseline"@),
            has_waived == any_waived(fv.take(i as int)),
        decreases findings.len() - i,
    {
        let f = &findings[i];
        proof {
            reveal_strlit("tool.runtime");
            reveal_strlit("baseline");
            reveal_strlit("semver");
            reveal_strlit("engine");
            assert("semver"@[0] != "engine"@[0]);
            assert("semver"@ != "engine"@);
            assert("tool.runtime"@.len() != "baseline"@.len());
            assert("tool.runtime"@.len() != "semver"@.len());
            assert("tool.runtime"@.len() != "engine"@.len());
            assert("baseline"@.len() != "semver"@.len());
            assert("baseline"@.len() != "engine"@.len());
        }
        let ghost t = fv.take(i + 1);
        assert(t[i as int] == f@);
        assert forall|q: int| 0 <= q < i implies t[q] == fv.take(i as int)[q] by {}
        if f.waived.is_some() {
            has_waived = true;
        } else {
            if str_eq(f.check_id.as_str(), "tool.runtime") {
                has_tool = true;
            } else if str_eq(f.check_id.as_str(), "baseline") {
                has_baseline = true;
            } else if str_eq(f.check_id.as_str(), "semver") {
                has_semver = true;
            } else if str_eq(f.check_id.as_str(), "engine") {
                has_engine = true;
            }
        }
        assert(has_tool == active_check(t, "tool.runtime"@));
        assert(has_semver == active_check(t, "semver"@));
        assert(has_engine == active_check(t, "engine"@));
        assert(has_baseline == active_check(t, "baseline"@));
        assert(has_waived == any_waived(t));
        i += 1;
    }
    assert(fv.take(findings.len() as int) =~= fv);
    let all_sk = match report {
        Some(r) => r.summary.total > 0 && r.summary.total == r.summary.skipped,
        None => false,
    };
    let mut reasons: Vec<String> = Vec::new();
    assert(strings_view(reasons@) =~= seq![]);
    push_reason(&mut reasons, has_semver, "semver_violation");
    push_reason(&mut reasons, has_baseline, "baseline_unavailable");
    push_reason(&mut reasons, has_tool, "tool_error");
    push_reason(&mut reasons, has_engine, "engine_error");
    push_reason(&mut reasons, was_truncated, "truncated");
    push_reason(&mut reasons, all_sk, "all_packages_skipped");
    push_reason(&mut reasons, has_waived, "waived");
    proof {
        reveal_strlit("semver_violation");
        reveal_strlit("baseline_unavailable");
        reveal_strlit("tool_error");
        reveal_strlit("engine_error");
        reveal_strlit("truncated");
        reveal_strlit("all_packages_skipped");
        reveal_strlit("waived");
        assert(seq![]
            + when(has_semver, "semver_violation"@)
            + when(has_baseline, "baseline_unavailable"@)
            + when(has_tool, "tool_error"@)
            + when(has_engine, "engine_error"@)
            + when(was_truncated, "truncated"@)
            + when(all_sk, "all_packages_skipped"@)
            + when(has_waived, "waived"@) =~= when(has_semver, "semver_violation"@)
            + when(has_baseline, "baseline_unavailable"@)
            + when(has_tool, "tool_error"@)
            + when(has_engine, "engine_error"@)
            + when(was_truncated, "truncated"@)
            + when(all_sk, "all_packages_skipped"@)
            + when(has_waived, "waived"@));
    }
    let status = if has_tool || has_semver || has_engine {
        VerdictStatus::Fail
    } else if has_baseline {
        VerdictStatus::Warn
    } else if all_sk {
        VerdictStatus::Skip
    } else {
        VerdictStatus::Pass
    };
    (status, reasons)
}

/// How many packages satisfy `f`.
pub open spec fn count_pk(pk: Seq<PackageReport>, f: spec_fn(PackageReport) -> bool) -> nat
    decreases pk.len(),
{
    if pk.len() == 0 {
        0
    } else {
        count_pk(pk.drop_last(), f) + if f(pk.last()) {
            1nat
        } else {
            0nat
        }
    }
}

proof fn lemma_count_le(pk: Seq<PackageReport>, f: spec_fn(PackageReport) -> bool)
    ensures
        count_pk(pk, f) <= pk.len(),
    decreases pk.len(),
{
    if pk.len() > 0 {
        lemma_count_le(pk.drop_last(), f);
    }
}

/// Order of required bumps.
pub open spec fn bump_rank(b: RequiredBump) -> int {
    match b {
        RequiredBump::Major => 3,
        RequiredBump::Minor => 2,
        RequiredBump::Patch => 1,
        RequiredBump::Unknown => 0,
    }
}

/// The largest bump any package requires.
pub open spec fn max_bump(pk: Seq<PackageReport>) -> Option<RequiredBump>
    decreases pk.len(),
{
    if pk.len() == 0 {
        None
    } else {
        let prev = max_bump(pk.drop_last());
        match pk.last().inferred_required_bump {
            None => prev,
            Some(b) => match prev {
                Some(p) if bump_rank(p) > bump_rank(b) => prev,
                _ => Some(b),
            },
        }
    }
}

/// Whether summary data describes a report under a baseline configuration.
pub open spec fn summary_matches(s: SummaryData, report: RunReport, baseline: BaselineConfig) -> bool {
    let pk = report.packages@;
    &&& s.packages_total == pk.len() as u32
    &&& s.packages_checked == count_pk(pk, |p: PackageReport| p.status != PackageStatus::Skipped) as u32
    &&& s.packages_skipped == count_pk(pk, |p: PackageReport| p.status == PackageStatus::Skipped) as u32
    &&& s.violations == count_pk(pk, |p: PackageReport| p.failure_kind == Some(FailureKind::SemverViolation)) as u32
    &&& s.baseline_issues == count_pk(pk, |p: PackageReport| p.failure_kind == Some(FailureKind::BaselineError)) as u32
    &&& os(s.max_required_bump) == match max_bump(pk) {
        Some(b) => Some(crate::findings::bump_text(b)),
        None => None,
    }
    &&& s.baseline_kind@ == match baseline.kind {
        BaselineKind::Git => "git"@,
        BaselineKind::CratesIo => "crates-io"@,
    }
    &&& os(s.baseline_ref) == match baseline.kind {
        BaselineKind::Git => os(baseline.rev),
        BaselineKind::CratesIo => os(baseline.version),
    }
}

/// Summary counts of a report: packages, checked, skipped, violations, baseline
/// issues, the largest required bump, and the baseline kind and reference.
pub fn build_summary_data(report: &RunReport, baseline: &BaselineConfig) -> (r: SummaryData)
    ensures
        summary_matches(r, *report, *baseline),
{
    let ghost pk = report.packages@;
    let ghost f_checked = |p: PackageReport| p.status != PackageStatus::Skipped;
    let ghost f_skipped = |p: PackageReport| p.status == PackageStatus::Skipped;
    let ghost f_viol = |p: PackageReport| p.failure_kind == Some(FailureKind::SemverViolation);
    let ghost f_base = |p: PackageReport| p.failure_kind == Some(FailureKind::BaselineError);
    let mut checked: usize = 0;
    let mut skipped: usize = 0;
    let mut violations: usize = 0;
    let mut issues: usize = 0;
    let mut best: Option<RequiredBump> = None;
    let mut i: usize = 0;
    while i < report.packages.len()
        invariant
            i <= report.packages.len(),
            pk == report.packages@,
            checked == count_pk(pk.take(i as int), f_checked),
            skipped == count_pk(pk.take(i as int), f_skipped),
            violations == count_pk(pk.take(i as int), f_viol),
            issues == count_pk(pk.take(i as int), f_base),
            best == max_bump(pk.take(i as int)),
            f_checked == (|p: PackageReport| p.status != PackageStatus::Skipped),
            f_skipped == (|p: PackageReport| p.status == PackageStatus::Skipped),
            f_viol == (|p: PackageReport| p.failure_kind == Some(FailureKind::SemverViolation)),
            f_base == (|p: PackageReport| p.failure_kind == Some(FailureKind::BaselineError)),
        decreases report.packages.len() - i,
    {
        let p = &report.packages[i];
        assert(pk.take(i + 1).drop_last() =~= pk.take(i as int));
        assert(pk.take(i + 1).last() == *p);
        proof {
            lemma_count_le(pk.take(i as int), f_checked);
            lemma_count_le(pk.take(i as int), f_skipped);
            lemma_count_le(pk.take(i as int), f_viol);
            lemma_count_le(pk.take(i as int), f_base);
        }
        if p.status != PackageStatus::Skipped {
            checked += 1;
        } else {
            skipped += 1;
        }
        if p.failure_kind == Some(FailureKind::SemverViolation) {
            violations += 1;
        }
        if p.failure_kind == Some(FailureKind::BaselineError) {
            issues += 1;
        }
        match p.inferred_required_bump {
            None => {},
            Some(b) => {
                let keep = match best {
                    Some(q) => rank_of(q) > rank_of(b),
                    None => false,
                };
                if !keep {
                    best = Some(b);
                }
            },
        }
        i += 1;
    }
    assert(pk.take(report.packages.len() as int) =~= pk);
    let baseline_kind = match baseline.kind {
        BaselineKind::Git => owned("git"),
        BaselineKind::CratesIo => owned("crates-io"),
    };
    let baseline_ref = match baseline.kind {
        BaselineKind::Git => match &baseline.rev {
            Some(x) => Some(x.clone()),
            None => None,
        },
        BaselineKind::CratesIo => match &baseline.version {
            Some(x) => Some(x.clone()),
            None => None,
        },
    };
    let max_required_bump = match best {
        Some(b) => Some(owned(crate::findings::required_bump_str(b))),
        None => None,
    };
    proof {
        reveal_strlit("git");
        reveal_strlit("crates-io");
    }
    SummaryData {
        packages_total: report.packages.len() as u32,
        packages_checked: checked as u32,
        packages_skipped: skipped as u32,
        violations: violations as u32,
        baseline_issues: issues as u32,
        max_required_bump,
        baseline_kind,
        baseline_ref,
    }
}

fn rank_of(b: RequiredBump) -> (r: u8)
    ensures
        r as int == bump_rank(b),
{
    match b {
        RequiredBump::Major => 3,
        RequiredBump::Minor => 2,
        RequiredBump::Patch => 1,
        RequiredBump::Unknown => 0,
    }
}

/// Whether any finding is a tool error.
pub open spec fn spec_has_tool_error(fs: Seq<FindingView>) -> bool {
    exists|i: int| 0 <= i < fs.len() && (#[trigger] fs[i]).check_id == "tool.runtime"@
}

/// Whether any finding is a tool error.
pub fn has_tool_error(findings: &Vec<Finding>) -> (r: bool)
    ensures
        r == spec_has_tool_error(findings_view(findings@)),
{
    let ghost fv = findings_view(findings@);
    let mut i: usize = 0;
    while i < findings.len()
        invariant
            i <= findings.len(),
            fv == findings_view(findings@),
            forall|q: int| 0 <= q < i ==> (#[trigger] fv[q]).check_id != "tool.runtime"@,
        decreases findings.len() - i,
    {
        assert(fv[i as int] == findings@[i as int]@);
        if str_eq(findings[i].check_id.as_str(), "tool.runtime") {
            proof {
                reveal_strlit("tool.runtime");
            }
            return true;
        }
        proof {
            reveal_strlit("tool.runtime");
        }
        i += 1;
    }
    false
}

/// The exit code of a receipt: a failure is `1` with a tool error and `2` without;
/// a warning is `3` when warnings fail the run, else `0`; pass and skip are `0`.
pub open spec fn spec_exit_code_from_receipt(status: VerdictStatus, warn_as_fail: bool, tool_error: bool) -> i32 {
    match status {
        VerdictStatus::Fail => if tool_error {
            1
        } else {
            2
        },
        VerdictStatus::Warn => if warn_as_fail {
            3
        } else {
            0
        },
        VerdictStatus::Pass | VerdictStatus::Skip => 0,
    }
}

/// The exit code of a receipt (see `spec_exit_code_from_receipt`).
pub fn exit_code_from_receipt(verdict: &Verdict, warn_as_fail: bool, has_tool_error_flag: bool) -> (r: i32)
    ensures
        r == spec_exit_code_from_receipt(verdict.status, warn_as_fail, has_tool_error_flag),
{
    match verdict.status {
        VerdictStatus::Fail => if has_tool_error_flag {
            1
        } else {
            2
        },
        VerdictStatus::Warn => if warn_as_fail {
            3
        } else {
            0
        },
        VerdictStatus::Pass | VerdictStatus::Skip => 0,
    }
}

/// The value behind an optional reference.
pub open spec fn deref_opt<T>(o: Option<&T>) -> Option<T> {
    match o {
        Some(x) => Some(*x),
        None => None,
    }
}

/// The finding of a tool error.
pub open spec fn tool_error_view(message: Seq<char>) -> FindingView {
    FindingView {
        check_id: "tool.runtime"@,
        code: "runtime_error"@,
        level: FindingLevel::Error,
        message,
        location: None,
        data: None,
        fingerprint: None,
        waived: None,
    }
}

/// The findings of the tool errors, in order.
pub open spec fn tool_error_views(errors: Seq<ToolErrorFinding>) -> Seq<FindingView> {
    errors.map_values(|e: ToolErrorFinding| tool_error_view(e.message@))
}

/// All findings before ordering: the report's package findings, then the tool errors.
pub open spec fn spec_all_findings(report: Option<RunReport>, errors: Seq<ToolErrorFinding>, artifacts: ArtifactIndex) -> Seq<FindingView> {
    let from_report = match report {
        Some(r) => spec_build_findings(r, artifacts),
        None => seq![],
    };
    from_report + tool_error_views(errors)
}

/// The findings in key order with waivers applied, before truncation.
pub open spec fn spec_waived_findings(
    report: Option<RunReport>,
    errors: Seq<ToolErrorFinding>,
    artifacts: ArtifactIndex,
    waivers: Seq<WaiverEntry>,
    today: (i32, u8, u8),
) -> Seq<FindingView> {
    spec_sort_findings(spec_all_findings(report, errors, artifacts)).map_values(
        |f: FindingView| spec_waive(f, waivers, today),
    )
}

/// The findings a receipt keeps: the first `MAX_FINDINGS` in order.
pub open spec fn spec_kept(fs: Seq<FindingView>) -> Seq<FindingView> {
    if fs.len() > 500 {
        fs.take(500)
    } else {
        fs
    }
}

/// Whether run facts describe a report (or, without one, the given time and root).
pub open spec fn run_info_matches(
    info: RunInfo,
    report: Option<RunReport>,
    baseline: BaselineConfig,
    workspace_root: Seq<char>,
    capabilities: Option<CapabilityContext>,
    now: Seq<char>,
) -> bool {
    &&& match report {
        Some(r) => {
            &&& info.started_at@ == r.started_at@
            &&& info.finished_at@ == r.finished_at@
            &&& info.duration_ms == match spec_duration_ms(r.started_at@, r.finished_at@) {
                Some(d) => d,
                None => 0,
            }
            &&& info.workspace_root@ == r.workspace_root@
        },
        None => {
            &&& info.started_at@ == now
            &&& info.finished_at@ == now
            &&& info.duration_ms == 0
            &&& info.workspace_root@ == workspace_root
        },
    }
    &&& info.baseline == baseline
    &&& match capabilities {
        Some(c) => (info.capabilities matches Some(rc) && cap_view(rc.git) == spec_git_capability(c) && cap_view(
            rc.baseline,
        ) == spec_baseline_capability(c)),
        None => info.capabilities is None,
    }
}

fn build_capabilities(capabilities: Option<&CapabilityContext>) -> (r: Option<crate::receipt::RunCapabilities>)
    ensures
        match capabilities {
            Some(c) => (r matches Some(rc) && cap_view(rc.git) == spec_git_capability(*c) && cap_view(rc.baseline)
                == spec_baseline_capability(*c)),
            None => r is None,
        },
{
    match capabilities {
        Some(c) => Some(c.build()),
        None => None,
    }
}

/// Run facts of a report: its times, duration (0 when the times do not parse),
/// workspace root, the baseline and the capabilities.
pub fn build_run_info(report: &RunReport, baseline: &BaselineConfig, capabilities: Option<&CapabilityContext>) -> (r:
    RunInfo)
    ensures
        run_info_matches(r, Some(*report), *baseline, seq![], match capabilities {
            Some(c) => Some(*c),
            None => None,
        }, seq![]),
{
    let duration_ms = match duration_ms_from_strings(report.started_at.as_str(), report.finished_at.as_str()) {
        Some(d) => d,
        None => 0,
    };
    RunInfo {
        started_at: report.started_at.clone(),
        finished_at: report.finished_at.clone(),
        duration_ms,
        workspace_root: report.workspace_root.clone(),
        baseline: baseline.clone(),
        capabilities: build_capabilities(capabilities),
    }
}

/// Run facts without a report, at time `now`.
pub fn build_run_info_at(
    baseline: &BaselineConfig,
    workspace_root: &str,
    capabilities: Option<&CapabilityContext>,
    now: &str,
) -> (r: RunInfo)
    ensures
        run_info_matches(r, None, *baseline, workspace_root@, match capabilities {
            Some(c) => Some(*c),
            None => None,
        }, now@),
{
    RunInfo {
        started_at: owned(now),
        finished_at: owned(now),
        duration_ms: 0,
        workspace_root: owned(workspace_root),
        baseline: baseline.clone(),
        capabilities: build_capabilities(capabilities),
    }
}

/// Whether a receipt is the one built from these inputs, on date `today` and (for
/// a receipt without a report) at time `now`.
pub open spec fn receipt_matches(
    r: SensorReportV1,
    report: Option<RunReport>,
    errors: Seq<ToolErrorFinding>,
    artifacts: ArtifactIndex,
    baseline: BaselineConfig,
    workspace_root: Seq<char>,
    capabilities: Option<CapabilityContext>,
    tool_version: Option<Seq<char>>,
    waivers: Seq<WaiverEntry>,
    today: (i32, u8, u8),
    now: Seq<char>,
) -> bool {
    let all = spec_waived_findings(report, errors, artifacts, waivers, today);
    let truncated = all.len() > 500;
    &&& r.schema@ == "sensor.report.v1"@
    &&& r.tool.name@ == "semverguard"@
    &&& r.tool.version@ == match tool_version {
        Some(v) => v,
        None => "0.1.0"@,
    }
    &&& r.tool.repository_url is None
    &&& run_info_matches(r.run, report, baseline, workspace_root, capabilities, now)
    &&& findings_view(r.findings@) == spec_kept(all)
    &&& r.verdict.status == spec_verdict_status(spec_kept(all), report)
    &&& strings_view(r.verdict.reasons@) == spec_verdict_reasons(spec_kept(all), report, truncated)
    &&& match report {
        Some(rep) => {
            &&& r.data is Some
            &&& r.data->0.report@ == rep@
            &&& r.data->0.findings_total == (if truncated {
                Some(all.len() as usize)
            } else {
                None::<usize>
            })
            &&& r.data->0.findings_emitted == (if truncated {
                Some(500usize)
            } else {
                None::<usize>
            })
            &&& r.data->0.summary is Some
            &&& summary_matches(r.data->0.summary->0, rep, baseline)
        },
        None => r.data is None,
    }
    &&& r.artifacts.report_json@ == artifacts.report_json@
    &&& r.artifacts.comment_md@ == artifacts.comment_md@
    &&& os(r.artifacts.sarif_json) == os(artifacts.sarif_json)
    &&& raws_view(r.artifacts.raw_logs@) == raws_view(artifacts.raw_logs@)
}

/// A receipt from a run report (or none), tool errors and capabilities, on date
/// `today` (for waiver expiry) and at time `now` (used only without a report).
/// Findings are ordered, waived, and cut to `MAX_FINDINGS`; the verdict follows
/// the kept findings.
pub fn assemble_receipt(
    report: Option<&RunReport>,
    errors: &Vec<ToolErrorFinding>,
    artifacts: &ArtifactIndex,
    baseline: &BaselineConfig,
    workspace_root: &str,
    capabilities: Option<&CapabilityContext>,
    tool_version: Option<&str>,
    waivers: &Vec<WaiverEntry>,
    today: (i32, u8, u8),
    now: &str,
) -> (r: SensorReportV1)
    ensures
        receipt_matches(
            r,
            match report {
                Some(x) => Some(*x),
                None => None,
            },
            errors@,
            *artifacts,
            *baseline,
            workspace_root@,
            match capabilities {
                Some(c) => Some(*c),
                None => None,
            },
            match tool_version {
                Some(v) => Some(v@),
                None => None,
            },
            waivers@,
            today,
            now@,
        ),
{
    let ghost rep = match report {
        Some(x) => Some(*x),
        None => None,
    };
    let (run_info, mut findings) = match report {
        Some(rp) => (build_run_info(rp, baseline, capabilities), build_findings(rp, artifacts, workspace_root)),
        None => {
            let v: Vec<Finding> = Vec::new();
            assert(findings_view(v@) =~= seq![]);
            (build_run_info_at(baseline, workspace_root, capabilities, now), v)
        },
    };
    proof {
        reveal_strlit("tool.runtime");
        reveal_strlit("runtime_error");
    }
    let ghost base = findings_view(findings@);
    let mut i: usize = 0;
    while i < errors.len()
        invariant
            i <= errors.len(),
            findings_view(findings@) == base + tool_error_views(errors@).take(i as int),
        decreases errors.len() - i,
    {
        let ghost before = findings_view(findings@);
        let f = Finding {
            check_id: owned("tool.runtime"),
            code: owned("runtime_error"),
            level: FindingLevel::Error,
            message: errors[i].message.clone(),
            location: None,
            data: None,
            fingerprint: None,
            waived: None,
        };
        proof {
            reveal_strlit("tool.runtime");
            reveal_strlit("runtime_error");
        }
        findings.push(f);
        assert(findings_view(findings@) =~= before.push(tool_error_view(errors@[i as int].message@)));
        assert(tool_error_views(errors@).take(i + 1) =~= tool_error_views(errors@).take(i as int).push(
            tool_error_view(errors@[i as int].message@),
        ));
        assert(base + tool_error_views(errors@).take(i + 1) =~= (base + tool_error_views(errors@).take(i as int)).push(
            tool_error_view(errors@[i as int].message@),
        ));
        i += 1;
    }
    assert(tool_error_views(errors@).take(errors.len() as int) =~= tool_error_views(errors@));
    assert(findings_view(findings@) == spec_all_findings(rep, errors@, *artifacts));
    let mut findings = sort_findings(findings);
    apply_waivers(&mut findings, waivers, today);
    let ghost all = spec_waived_findings(rep, errors@, *artifacts, waivers@, today);
    assert(findings_view(findings@) == all);
    let total_findings = findings.len();
    let was_truncated = total_findings > MAX_FINDINGS;
    if was_truncated {
        findings.truncate(MAX_FINDINGS);
        assert(findings_view(findings@) =~= all.take(500));
    }
    let (status, reasons) = derive_verdict(&findings, report, was_truncated);
    let version = match tool_version {
        Some(v) => owned(v),
        None => owned(TOOL_VERSION),
    };
    let data = match report {
        Some(rp) => Some(
            SemverguardData {
                report: rp.clone(),
                findings_total: if was_truncated {
                    Some(total_findings)
                } else {
                    None
                },
                findings_emitted: if was_truncated {
                    Some(MAX_FINDINGS)
                } else {
                    None
                },
                summary: Some(build_summary_data(rp, baseline)),
            },
        ),
        None => None,
    };
    proof {
        reveal_strlit("sensor.report.v1");
        reveal_strlit("semverguard");
        reveal_strlit("0.1.0");
    }
    SensorReportV1 {
        schema: owned("sensor.report.v1"),
        tool: ToolInfo { name: owned("semverguard"), version, repository_url: None },
        run: run_info,
        verdict: Verdict { status, reasons },
        findings,
        data,
        artifacts: crate::receipt::clone_artifacts(artifacts),
    }
}

/// A receipt with an optional tool version and waivers. Waiver expiry is judged
/// on today's date in UTC, and a receipt without a report is stamped with the
/// current time; whatever those are, the receipt is the one `assemble_receipt`
/// builds from them.
pub fn build_receipt_with_capabilities_versioned(
    report: Option<&RunReport>,
    errors: &Vec<ToolErrorFinding>,
    artifacts: &ArtifactIndex,
    baseline: &BaselineConfig,
    workspace_root: &str,
    capabilities: Option<&CapabilityContext>,
    tool_version: Option<&str>,
    waivers: &Vec<WaiverEntry>,
) -> (r: SensorReportV1)
    ensures
        exists|today: (i32, u8, u8), now: Seq<char>|
            #[trigger] receipt_matches(
                r,
                deref_opt(report),
                errors@,
                *artifacts,
                *baseline,
                workspace_root@,
                deref_opt(capabilities),
                opt_str_view(tool_version),
                waivers@,
                today,
                now,
            ),
{
    let today = if waivers.len() > 0 {
        today_utc()
    } else {
        (1970, 1, 1)
    };
    let now = match report {
        Some(_) => String::new(),
        None => now_rfc3339(),
    };
    assemble_receipt(
        report,
        errors,
        artifacts,
        baseline,
        workspace_root,
        capabilities,
        tool_version,
        waivers,
        today,
        now.as_str(),
    )
}

/// A receipt with capabilities, the library's version and no waivers.
pub fn build_receipt_with_capabilities(
    report: Option<&RunReport>,
    errors: &Vec<ToolErrorFinding>,
    artifacts: &ArtifactIndex,
    baseline: &BaselineConfig,
    workspace_root: &str,
    capabilities: Option<&CapabilityContext>,
) -> (r: SensorReportV1)
    ensures
        exists|today: (i32, u8, u8), now: Seq<char>|
            #[trigger] receipt_matches(
                r,
                deref_opt(report),
                errors@,
                *artifacts,
                *baseline,
                workspace_root@,
                deref_opt(capabilities),
                None,
                seq![],
                today,
                now,
            ),
{
    let waivers: Vec<WaiverEntry> = Vec::new();
    build_receipt_with_capabilities_versioned(report, errors, artifacts, baseline, workspace_root, capabilities, None, &waivers)
}

/// A receipt without capabilities, with the library's version and no waivers.
pub fn build_receipt(
    report: Option<&RunReport>,
    errors: &Vec<ToolErrorFinding>,
    artifacts: &ArtifactIndex,
    baseline: &BaselineConfig,
    workspace_root: &str,
) -> (r: SensorReportV1)
    ensures
        exists|today: (i32, u8, u8), now: Seq<char>|
            #[trigger] receipt_matches(
                r,
                deref_opt(report),
                errors@,
                *artifacts,
                *baseline,
                workspace_root@,
                None,
                None,
                seq![],
                today,
                now,
            ),
{
    build_receipt_with_capabilities(report, errors, artifacts, baseline, workspace_root, None)
}

} // verus!
