//! The Markdown pull request comment of a receipt.
use vstd::prelude::*;
use crate::artifacts::{package_sort_keys, pkg_keys, sorted_packages};
use crate::findings::{finding_raw_log, raw_log_for};
use crate::globs::strings_view;
use crate::model::{FailureKind, FindingLevel, PackageReport, PackageStatus, RequiredBump, VerdictStatus};
use crate::order::{SortKey, keys_view, sort_order, sorted_positions};
use crate::receipt::{Finding, FindingView, SensorReportV1, findings_view, os, raws_view};
use crate::text::{chars_of, nat_decimal, owned, push_char, push_str, str_eq, string_from_chars, usize_decimal};

verus! {

/// Lines joined with `\n`.
pub open spec fn join_lines(ls: Seq<Seq<char>>) -> Seq<char>
    decreases ls.len(),
{
    if ls.len() == 0 {
        seq![]
    } else if ls.len() == 1 {
        ls[0]
    } else {
        join_lines(ls.drop_last()) + seq!['\n'] + ls.last()
    }
}

/// Lines joined with `\n`.
pub fn join_with_newlines(ls: &Vec<String>) -> (r: String)
    ensures
        r@ == join_lines(strings_view(ls@)),
{
    let ghost lv = strings_view(ls@);
    let mut out = String::new();
    let mut i: usize = 0;
    while i < ls.len()
        invariant
            i <= ls.len(),
            lv == strings_view(ls@),
            out@ == join_lines(lv.take(i as int)),
        decreases ls.len() - i,
    {
        assert(lv.take(i + 1).drop_last() =~= lv.take(i as int));
        assert(lv.take(i + 1).last() == ls@[i as int]@);
        if i > 0 {
            push_char(&mut out, '\n');
        } else {
            assert(out@ =~= seq![]);
        }
        push_str(&mut out, ls[i].as_str());
        i += 1;
    }
    assert(lv.take(ls.len() as int) =~= lv);
    out
}

/// The verdict word of the heading.
pub open spec fn verdict_word(s: VerdictStatus) -> Seq<char> {
    match s {
        VerdictStatus::Pass => "pass"@,
        VerdictStatus::Warn => "warn"@,
        VerdictStatus::Fail => "fail"@,
        VerdictStatus::Skip => "skip"@,
    }
}

/// The name a required bump is printed with (its variant name).
pub open spec fn bump_debug(b: RequiredBump) -> Seq<char> {
    match b {
        RequiredBump::Major => "Major"@,
        RequiredBump::Minor => "Minor"@,
        RequiredBump::Patch => "Patch"@,
        RequiredBump::Unknown => "Unknown"@,
    }
}

/// The name a required bump is printed with (its variant name).
pub fn bump_debug_str(b: RequiredBump) -> (r: &'static str)
    ensures
        r@ == bump_debug(b),
{
    proof {
        reveal_strlit("Major");
        reveal_strlit("Minor");
        reveal_strlit("Patch");
        reveal_strlit("Unknown");
    }
    match b {
        RequiredBump::Major => "Major",
        RequiredBump::Minor => "Minor",
        RequiredBump::Patch => "Patch",
        RequiredBump::Unknown => "Unknown",
    }
}

/// Whether a package is listed under failed packages: it failed on its API, or
/// with an unclassified failure (baseline and tool errors are listed elsewhere).
pub open spec fn is_listed_failure(p: PackageReport) -> bool {
    p.status == PackageStatus::Failed && p.failure_kind != Some(FailureKind::BaselineError) && p.failure_kind
        != Some(FailureKind::ToolError)
}

/// The line of a failed package.
pub open spec fn failed_line(
    p: PackageReport,
    raws: Seq<(Seq<char>, Seq<char>, Option<Seq<char>>, Option<Seq<char>>)>,
) -> Seq<char> {
    "- "@ + p.name@ + " "@ + p.version@ + " (required bump: "@ + match p.inferred_required_bump {
        Some(b) => bump_debug(b),
        None => "unknown"@,
    } + ")"@ + match finding_raw_log(raws, p.name@, p.version@) {
        Some(l) => " (log: "@ + l + ")"@,
        None => seq![],
    }
}

/// The line of a skipped package.
pub open spec fn skipped_line(p: PackageReport) -> Seq<char> {
    "- "@ + p.name@ + " "@ + p.version@ + " ("@ + match p.skip_reason {
        Some(r) => r@,
        None => "skipped"@,
    } + ")"@
}

/// The line of a passed package.
pub open spec fn passed_line(p: PackageReport) -> Seq<char> {
    "- "@ + p.name@ + " "@ + p.version@
}

/// Lines of the packages in `sorted` that `keep`, made by `line`.
pub open spec fn package_lines(
    sorted: Seq<PackageReport>,
    keep: spec_fn(PackageReport) -> bool,
    line: spec_fn(PackageReport) -> Seq<char>,
) -> Seq<Seq<char>>
    decreases sorted.len(),
{
    if sorted.len() == 0 {
        seq![]
    } else {
        let prev = package_lines(sorted.drop_last(), keep, line);
        if keep(sorted.last()) {
            prev.push(line(sorted.last()))
        } else {
            prev
        }
    }
}

/// `ls`, or a `(none)` line when empty.
pub open spec fn or_none(ls: Seq<Seq<char>>) -> Seq<Seq<char>> {
    if ls.len() == 0 {
        seq!["- (none)"@]
    } else {
        ls
    }
}

/// Whether a finding is listed under warnings and tool errors.
pub open spec fn is_listed_warning(f: FindingView) -> bool {
    f.level != FindingLevel::Info && (f.level == FindingLevel::Warning || f.check_id == "tool"@)
}

/// The warning lines of findings, in finding order.
pub open spec fn warning_lines(fs: Seq<FindingView>) -> Seq<Seq<char>>
    decreases fs.len(),
{
    if fs.len() == 0 {
        seq![]
    } else {
        let prev = warning_lines(fs.drop_last());
        if is_listed_warning(fs.last()) {
            prev.push("- "@ + fs.last().check_id + ": "@ + fs.last().message)
        } else {
            prev
        }
    }
}

/// Texts in lexicographic order.
pub open spec fn sorted_texts(ls: Seq<Seq<char>>) -> Seq<Seq<char>> {
    sorted_positions(ls.map_values(|l: Seq<char>| (0u8, seq![l]))).map_values(|i: usize| ls[i as int])
}

/// The lines of a receipt's comment.
pub open spec fn comment_lines(receipt: SensorReportV1) -> Seq<Seq<char>> {
    let raws = raws_view(receipt.artifacts.raw_logs@);
    let summary = match receipt.data {
        Some(d) => "Summary: total="@ + nat_decimal(d.report.summary.total as nat) + " passed="@ + nat_decimal(
            d.report.summary.passed as nat,
        ) + " failed="@ + nat_decimal(d.report.summary.failed as nat) + " skipped="@ + nat_decimal(
            d.report.summary.skipped as nat,
        ),
        None => "Summary: (no report available)"@,
    };
    let failed = match receipt.data {
        Some(d) => or_none(
            package_lines(
                sorted_packages(d.report.packages@),
                |p: PackageReport| is_listed_failure(p),
                |p: PackageReport| failed_line(p, raws),
            ),
        ),
        None => seq!["- (none)"@],
    };
    let skipped = match receipt.data {
        Some(d) => or_none(
            package_lines(
                sorted_packages(d.report.packages@),
                |p: PackageReport| p.status == PackageStatus::Skipped,
                |p: PackageReport| skipped_line(p),
            ),
        ),
        None => seq!["- (none)"@],
    };
    let passed = match receipt.data {
        Some(d) => or_none(
            package_lines(
                sorted_packages(d.report.packages@),
                |p: PackageReport| p.status == PackageStatus::Passed,
                |p: PackageReport| passed_line(p),
            ),
        ),
        None => seq!["- (none)"@],
    };
    let warnings = or_none(sorted_texts(warning_lines(findings_view(receipt.findings@))));
    seq!["## Semverguard: "@ + verdict_word(receipt.verdict.status), summary, seq![], "### Failed packages"@]
        + failed + seq![seq![], "### Skipped packages"@] + skipped + seq![seq![], "### Passed packages"@]
        + passed + seq![seq![], "### Warnings / tool errors"@] + warnings
}

/// The Markdown comment of a receipt.
pub open spec fn spec_render_comment(receipt: SensorReportV1) -> Seq<char> {
    join_lines(comment_lines(receipt))
}

fn push_lines(out: &mut Vec<String>, ls: Vec<String>)
    ensures
        strings_view(final(out)@) == strings_view(old(out)@) + strings_view(ls@),
{
    let ghost before = strings_view(out@);
    let mut i: usize = 0;
    while i < ls.len()
        invariant
            i <= ls.len(),
            strings_view(out@) == before + strings_view(ls@).take(i as int),
        decreases ls.len() - i,
    {
        let ghost mid = strings_view(out@);
        out.push(ls[i].clone());
        assert(strings_view(out@) =~= mid.push(ls@[i as int]@));
        assert(strings_view(ls@).take(i + 1) =~= strings_view(ls@).take(i as int).push(ls@[i as int]@));
        i += 1;
    }
    assert(strings_view(ls@).take(ls.len() as int) =~= strings_view(ls@));
}

fn none_if_empty(ls: Vec<String>) -> (r: Vec<String>)
    ensures
        strings_view(r@) == or_none(strings_view(ls@)),
{
    if ls.len() == 0 {
        let mut v: Vec<String> = Vec::new();
        v.push(owned("- (none)"));
        assert(strings_view(v@) =~= seq!["- (none)"@]);
        v
    } else {
        ls
    }
}

fn failed_lines(pk: &Vec<PackageReport>, raws: &Vec<crate::receipt::RawLogRef>) -> (r: Vec<String>)
    ensures
        strings_view(r@) == package_lines(
            sorted_packages(pk@),
            |p: PackageReport| is_listed_failure(p),
            |p: PackageReport| failed_line(p, raws_view(raws@)),
        ),
{
    let keys = package_sort_keys(pk);
    let order = sort_order(&keys);
    let ghost sorted = sorted_packages(pk@);
    let ghost keep = |p: PackageReport| is_listed_failure(p);
    let ghost line = |p: PackageReport| failed_line(p, raws_view(raws@));
    let mut out: Vec<String> = Vec::new();
    let mut k: usize = 0;
    while k < order.len()
        invariant
            k <= order.len(),
            order@ == sorted_positions(pkg_keys(pk@)),
            order.len() == pk.len(),
            forall|i: int| 0 <= i < order.len() ==> #[trigger] order@[i] < pk.len(),
            sorted == sorted_packages(pk@),
            keep == (|p: PackageReport| is_listed_failure(p)),
            line == (|p: PackageReport| failed_line(p, raws_view(raws@))),
            strings_view(out@) == package_lines(sorted.take(k as int), keep, line),
        decreases order.len() - k,
    {
        let p = &pk[order[k]];
        assert(sorted.take(k + 1).drop_last() =~= sorted.take(k as int));
        assert(sorted.take(k + 1).last() == *p);
        if p.status == PackageStatus::Failed && p.failure_kind != Some(FailureKind::BaselineError)
            && p.failure_kind != Some(FailureKind::ToolError) {
            let mut s = owned("- ");
            push_str(&mut s, p.name.as_str());
            push_str(&mut s, " ");
            push_str(&mut s, p.version.as_str());
            push_str(&mut s, " (required bump: ");
            match p.inferred_required_bump {
                Some(b) => push_str(&mut s, bump_debug_str(b)),
                None => push_str(&mut s, "unknown"),
            }
            push_str(&mut s, ")");
            let ghost pre = s@;
            match raw_log_for(raws, &p.name, &p.version) {
                Some(l) => {
                    push_str(&mut s, " (log: ");
                    push_str(&mut s, l.as_str());
                    push_str(&mut s, ")");
                },
                None => {
                    assert(s@ =~= pre + seq![]);
                },
            }
            let ghost before = strings_view(out@);
            assert(s@ =~= failed_line(*p, raws_view(raws@)));
            out.push(s);
            assert(strings_view(out@) =~= before.push(line(*p)));
        }
        k += 1;
    }
    assert(sorted.take(order.len() as int) =~= sorted);
    out
}

fn skipped_lines(pk: &Vec<PackageReport>) -> (r: Vec<String>)
    ensures
        strings_view(r@) == package_lines(
            sorted_packages(pk@),
            |p: PackageReport| p.status == PackageStatus::Skipped,
            |p: PackageReport| skipped_line(p),
        ),
{
    let keys = package_sort_keys(pk);
    let order = sort_order(&keys);
    let ghost sorted = sorted_packages(pk@);
    let ghost keep = |p: PackageReport| p.status == PackageStatus::Skipped;
    let ghost line = |p: PackageReport| skipped_line(p);
    let mut out: Vec<String> = Vec::new();
    let mut k: usize = 0;
    while k < order.len()
        invariant
            k <= order.len(),
            order@ == sorted_positions(pkg_keys(pk@)),
            order.len() == pk.len(),
            forall|i: int| 0 <= i < order.len() ==> #[trigger] order@[i] < pk.len(),
            sorted == sorted_packages(pk@),
            keep == (|p: PackageReport| p.status == PackageStatus::Skipped),
            line == (|p: PackageReport| skipped_line(p)),
            strings_view(out@) == package_lines(sorted.take(k as int), keep, line),
        decreases order.len() - k,
    {
        let p = &pk[order[k]];
        assert(sorted.take(k + 1).drop_last() =~= sorted.take(k as int));
        assert(sorted.take(k + 1).last() == *p);
        if p.status == PackageStatus::Skipped {
            let mut s = owned("- ");
            push_str(&mut s, p.name.as_str());
            push_str(&mut s, " ");
            push_str(&mut s, p.version.as_str());
            push_str(&mut s, " (");
            match &p.skip_reason {
                Some(r) => push_str(&mut s, r.as_str()),
                None => push_str(&mut s, "skipped"),
            }
            push_str(&mut s, ")");
            let ghost before = strings_view(out@);
            assert(s@ =~= skipped_line(*p));
            out.push(s);
            assert(strings_view(out@) =~= before.push(line(*p)));
        }
        k += 1;
    }
    assert(sorted.take(order.len() as int) =~= sorted);
    out
}

fn passed_lines(pk: &Vec<PackageReport>) -> (r: Vec<String>)
    ensures
        strings_view(r@) == package_lines(
            sorted_packages(pk@),
            |p: PackageReport| p.status == PackageStatus::Passed,
            |p: PackageReport| passed_line(p),
        ),
{
    let keys = package_sort_keys(pk);
    let order = sort_order(&keys);
    let ghost sorted = sorted_packages(pk@);
    let ghost keep = |p: PackageReport| p.status == PackageStatus::Passed;
    let ghost line = |p: PackageReport| passed_line(p);
    let mut out: Vec<String> = Vec::new();
    let mut k: usize = 0;
    while k < order.len()
        invariant
            k <= order.len(),
            order@ == sorted_positions(pkg_keys(pk@)),
            order.len() == pk.len(),
            forall|i: int| 0 <= i < order.len() ==> #[trigger] order@[i] < pk.len(),
            sorted == sorted_packages(pk@),
            keep == (|p: PackageReport| p.status == PackageStatus::Passed),
            line == (|p: PackageReport| passed_line(p)),
            strings_view(out@) == package_lines(sorted.take(k as int), keep, line),
        decreases order.len() - k,
    {
        let p = &pk[order[k]];
        assert(sorted.take(k + 1).drop_last() =~= sorted.take(k as int));
        assert(sorted.take(k + 1).last() == *p);
        if p.status == PackageStatus::Passed {
            let mut s = owned("- ");
            push_str(&mut s, p.name.as_str());
            push_str(&mut s, " ");
            push_str(&mut s, p.version.as_str());
            let ghost before = strings_view(out@);
            assert(s@ =~= passed_line(*p));
            out.push(s);
            assert(strings_view(out@) =~= before.push(line(*p)));
        }
        k += 1;
    }
    assert(sorted.take(order.len() as int) =~= sorted);
    out
}

fn warn_lines(fs: &Vec<Finding>) -> (r: Vec<String>)
    ensures
        strings_view(r@) == sorted_texts(warning_lines(findings_view(fs@))),
{
    let ghost fv = findings_view(fs@);
    let mut lines: Vec<String> = Vec::new();
    let mut i: usize = 0;
    while i < fs.len()
        invariant
            i <= fs.len(),
            fv == findings_view(fs@),
            strings_view(lines@) == warning_lines(fv.take(i as int)),
        decreases fs.len() - i,
    {
        let f = &fs[i];
        assert(fv.take(i + 1).drop_last() =~= fv.take(i as int));
        assert(fv.take(i + 1).last() == f@);
        proof {
            reveal_strlit("tool");
        }
        if f.level != FindingLevel::Info && (f.level == FindingLevel::Warning || str_eq(f.check_id.as_str(), "tool")) {
            let mut s = owned("- ");
            push_str(&mut s, f.check_id.as_str());
            push_str(&mut s, ": ");
            push_str(&mut s, f.message.as_str());
            let ghost before = strings_view(lines@);
            lines.push(s);
            assert(strings_view(lines@) =~= before.push("- "@ + f@.check_id + ": "@ + f@.message));
        }
        i += 1;
    }
    assert(fv.take(fs.len() as int) =~= fv);
    let ghost lv = strings_view(lines@);
    let mut keys: Vec<SortKey> = Vec::new();
    let mut j: usize = 0;
    while j < lines.len()
        invariant
            j <= lines.len(),
            lv == strings_view(lines@),
            keys_view(keys@) == lv.map_values(|l: Seq<char>| (0u8, seq![l])).take(j as int),
        decreases lines.len() - j,
    {
        let mut parts: Vec<Vec<char>> = Vec::new();
        parts.push(chars_of(lines[j].as_str()));
        let ghost before = keys_view(keys@);
        keys.push(SortKey { rank: 0, parts });
        assert(parts@.map_values(|p: Vec<char>| p@) =~= seq![lv[j as int]]);
        assert(keys_view(keys@) =~= before.push((0u8, seq![lv[j as int]])));
        assert(lv.map_values(|l: Seq<char>| (0u8, seq![l])).take(j + 1) =~= lv.map_values(
            |l: Seq<char>| (0u8, seq![l]),
        ).take(j as int).push((0u8, seq![lv[j as int]])));
        j += 1;
    }
    assert(lv.map_values(|l: Seq<char>| (0u8, seq![l])).take(lines.len() as int) =~= lv.map_values(
        |l: Seq<char>| (0u8, seq![l]),
    ));
    let order = sort_order(&keys);
    let ghost sorted = sorted_texts(lv);
    let mut out: Vec<String> = Vec::new();
    let mut k: usize = 0;
    while k < order.len()
        invariant
            k <= order.len(),
            order.len() == lines.len(),
            lv == strings_view(lines@),
            order@ == sorted_positions(lv.map_values(|l: Seq<char>| (0u8, seq![l]))),
            forall|q: int| 0 <= q < order.len() ==> #[trigger] order@[q] < lines.len(),
            sorted == sorted_texts(lv),
            strings_view(out@) == sorted.take(k as int),
        decreases order.len() - k,
    {
        let ghost before = strings_view(out@);
        out.push(lines[order[k]].clone());
        assert(sorted[k as int] == lv[order@[k as int] as int]);
        assert(strings_view(out@) =~= before.push(sorted[k as int]));
        assert(sorted.take(k + 1) =~= sorted.take(k as int).push(sorted[k as int]));
        k += 1;
    }
    assert(sorted.take(order.len() as int) =~= sorted);
    out
}

/// The Markdown comment of a receipt: the verdict, the summary counts, failed,
/// skipped and passed packages in name and version order (failed ones with their
/// required bump and raw log), and the sorted warnings and tool errors.
pub fn render_comment(receipt: &SensorReportV1) -> (r: String)
    ensures
        r@ == spec_render_comment(*receipt),
{
    let mut lines: Vec<String> = Vec::new();
    let word: &str = match receipt.verdict.status {
        VerdictStatus::Pass => "pass",
        VerdictStatus::Warn => "warn",
        VerdictStatus::Fail => "fail",
        VerdictStatus::Skip => "skip",
    };
    proof {
        reveal_strlit("pass");
        reveal_strlit("warn");
        reveal_strlit("fail");
        reveal_strlit("skip");
    }
    let ghost raws = raws_view(receipt.artifacts.raw_logs@);
    let mut head = owned("## Semverguard: ");
    push_str(&mut head, word);
    let summary = match &receipt.data {
        Some(d) => {
            let s = &d.report.summary;
            let mut t = owned("Summary: total=");
            push_str(&mut t, usize_decimal(s.total).as_str());
            push_str(&mut t, " passed=");
            push_str(&mut t, usize_decimal(s.passed).as_str());
            push_str(&mut t, " failed=");
            push_str(&mut t, usize_decimal(s.failed).as_str());
            push_str(&mut t, " skipped=");
            push_str(&mut t, usize_decimal(s.skipped).as_str());
            t
        },
        None => owned("Summary: (no report available)"),
    };
    let ghost hv = head@;
    let ghost sv = summary@;
    lines.push(head);
    lines.push(summary);
    lines.push(String::new());
    lines.push(owned("### Failed packages"));
    proof {
        reveal_strlit("");
    }
    assert(strings_view(lines@) =~= seq![hv, sv, seq![], "### Failed packages"@]);
    let failed = match &receipt.data {
        Some(d) => none_if_empty(failed_lines(&d.report.packages, &receipt.artifacts.raw_logs)),
        None => none_if_empty(Vec::new()),
    };
    let ghost fv = strings_view(failed@);
    push_lines(&mut lines, failed);
    let ghost l1 = strings_view(lines@);
    lines.push(String::new());
    lines.push(owned("### Skipped packages"));
    assert(strings_view(lines@) =~= l1 + seq![seq![], "### Skipped packages"@]);
    let skipped = match &receipt.data {
        Some(d) => none_if_empty(skipped_lines(&d.report.packages)),
        None => none_if_empty(Vec::new()),
    };
    let ghost skv = strings_view(skipped@);
    push_lines(&mut lines, skipped);
    let ghost l2 = strings_view(lines@);
    lines.push(String::new());
    lines.push(owned("### Passed packages"));
    assert(strings_view(lines@) =~= l2 + seq![seq![], "### Passed packages"@]);
    let passed = match &receipt.data {
        Some(d) => none_if_empty(passed_lines(&d.report.packages)),
        None => none_if_empty(Vec::new()),
    };
    let ghost pv = strings_view(passed@);
    push_lines(&mut lines, passed);
    let ghost l3 = strings_view(lines@);
    lines.push(String::new());
    lines.push(owned("### Warnings / tool errors"));
    assert(strings_view(lines@) =~= l3 + seq![seq![], "### Warnings / tool errors"@]);
    let warnings = none_if_empty(warn_lines(&receipt.findings));
    let ghost wv = strings_view(warnings@);
    push_lines(&mut lines, warnings);
    assert(hv == "## Semverguard: "@ + verdict_word(receipt.verdict.status));
    assert(strings_view(lines@) =~= seq![hv, sv, seq![], "### Failed packages"@] + fv + seq![
        seq![],
        "### Skipped packages"@,
    ] + skv + seq![seq![], "### Passed packages"@] + pv + seq![seq![], "### Warnings / tool errors"@] + wv);
    assert(strings_view(lines@) =~= comment_lines(*receipt));
    join_with_newlines(&lines)
}

} // verus!
