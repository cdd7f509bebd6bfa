//! Plain-text renderings the command line prints: the run summary, the package
//! listing and finding explanations.
use vstd::prelude::*;
use crate::cli::{indent, spec_indent, spec_tail_lines, tail_lines};
use crate::comment::{bump_debug, bump_debug_str};
use crate::explain::{FindingExplanation, texts_view};
use crate::model::{ListResult, ListedPackage, PackageReport, PackageStatus, RunReport, SkippedPackage};
use crate::text::{nat_decimal, owned, push_char, push_str, spec_trim, trim_str, usize_decimal};

verus! {

/// A line followed by a newline.
pub open spec fn line(t: Seq<char>) -> Seq<char> {
    t + seq!['\n']
}

/// The lines printed for one package of a run.
pub open spec fn package_text(p: PackageReport) -> Seq<char> {
    match p.status {
        PackageStatus::Passed => seq![],
        PackageStatus::Skipped => line(
            "SKIP  "@ + p.name@ + " "@ + p.version@ + "  ("@ + match p.skip_reason {
                Some(r) => r@,
                None => seq![],
            } + ")"@,
        ),
        PackageStatus::Failed => {
            let head = line("FAIL  "@ + p.name@ + " "@ + p.version@ + "  "@ + p.manifest_path@);
            let bump = match p.inferred_required_bump {
                Some(b) => line("      inferred required bump: "@ + bump_debug(b)),
                None => seq![],
            };
            let detail = match p.engine {
                Some(e) => {
                    let tail = spec_tail_lines(e.stderr@, 20);
                    if spec_trim(tail).len() > 0 {
                        line("      stderr (tail):\n"@ + spec_indent(tail, "      "@))
                    } else {
                        seq![]
                    }
                },
                None => match p.skip_reason {
                    Some(r) => line("      "@ + r@),
                    None => seq![],
                },
            };
            head + bump + detail
        },
    }
}

/// The lines printed for packages, in order.
pub open spec fn packages_text(pk: Seq<PackageReport>) -> Seq<char>
    decreases pk.len(),
{
    if pk.len() == 0 {
        seq![]
    } else {
        packages_text(pk.drop_last()) + package_text(pk.last())
    }
}

/// The text printed for a run report: the counts, then skipped and failed packages
/// (failed ones with their bump and the tail of the engine's stderr).
pub open spec fn spec_text_report(r: RunReport) -> Seq<char> {
    line(
        "semverguard: total="@ + nat_decimal(r.summary.total as nat) + " passed="@ + nat_decimal(
            r.summary.passed as nat,
        ) + " failed="@ + nat_decimal(r.summary.failed as nat) + " skipped="@ + nat_decimal(
            r.summary.skipped as nat,
        ),
    ) + packages_text(r.packages@)
}

fn push_line(s: &mut String, t: &str)
    ensures
        final(s)@ == old(s)@ + line(t@),
{
    push_str(s, t);
    push_char(s, '\n');
}

fn package_lines_of(p: &PackageReport) -> (r: String)
    ensures
        r@ == package_text(*p),
{
    let mut out = String::new();
    match p.status {
        PackageStatus::Passed => {},
        PackageStatus::Skipped => {
            let mut t = owned("SKIP  ");
            push_str(&mut t, p.name.as_str());
            push_str(&mut t, " ");
            push_str(&mut t, p.version.as_str());
            push_str(&mut t, "  (");
            match &p.skip_reason {
                Some(r) => push_str(&mut t, r.as_str()),
                None => {},
            }
            push_str(&mut t, ")");
            push_line(&mut out, t.as_str());
        },
        PackageStatus::Failed => {
            let mut t = owned("FAIL  ");
            push_str(&mut t, p.name.as_str());
            push_str(&mut t, " ");
            push_str(&mut t, p.version.as_str());
            push_str(&mut t, "  ");
            push_str(&mut t, p.manifest_path.as_str());
            push_line(&mut out, t.as_str());
            let ghost a = out@;
            if let Some(b) = p.inferred_required_bump {
                let mut u = owned("      inferred required bump: ");
                push_str(&mut u, bump_debug_str(b));
                push_line(&mut out, u.as_str());
            }
            let ghost b = out@;
            match &p.engine {
                Some(e) => {
                    let tail = tail_lines(e.stderr.as_str(), 20);
                    let tt = trim_str(tail.as_str());
                    if tt.as_str().unicode_len() > 0 {
                        let mut u = owned("      stderr (tail):\n");
                        let ind = indent(tail.as_str(), "      ");
                        push_str(&mut u, ind.as_str());
                        push_line(&mut out, u.as_str());
                    }
                },
                None => match &p.skip_reason {
                    Some(r) => {
                        let mut u = owned("      ");
                        push_str(&mut u, r.as_str());
                        push_line(&mut out, u.as_str());
                    },
                    None => {},
                },
            }
            proof {
                reveal_strlit("      ");
            }
        },
    }
    assert(out@ =~= package_text(*p));
    out
}

/// The text printed for a run report (see `spec_text_report`).
pub fn render_text_report(report: &RunReport) -> (r: String)
    ensures
        r@ == spec_text_report(*report),
{
    let s = &report.summary;
    let mut head = owned("semverguard: total=");
    push_str(&mut head, usize_decimal(s.total).as_str());
    push_str(&mut head, " passed=");
    push_str(&mut head, usize_decimal(s.passed).as_str());
    push_str(&mut head, " failed=");
    push_str(&mut head, usize_decimal(s.failed).as_str());
    push_str(&mut head, " skipped=");
    push_str(&mut head, usize_decimal(s.skipped).as_str());
    let mut out = String::new();
    push_line(&mut out, head.as_str());
    let ghost h = out@;
    let mut i: usize = 0;
    while i < report.packages.len()
        invariant
            i <= report.packages.len(),
            out@ == h + packages_text(report.packages@.take(i as int)),
        decreases report.packages.len() - i,
    {
        assert(report.packages@.take(i + 1).drop_last() =~= report.packages@.take(i as int));
        assert(report.packages@.take(i + 1).last() == report.packages@[i as int]);
        let t = package_lines_of(&report.packages[i]);
        push_str(&mut out, t.as_str());
        assert(out@ =~= h + packages_text(report.packages@.take(i + 1)));
        i += 1;
    }
    assert(report.packages@.take(report.packages.len() as int) =~= report.packages@);
    out
}

/// Lines of the packages that would be checked.
pub open spec fn check_lines(v: Seq<ListedPackage>) -> Seq<char>
    decreases v.len(),
{
    if v.len() == 0 {
        seq![]
    } else {
        check_lines(v.drop_last()) + line("  "@ + v.last().name@ + " "@ + v.last().version@)
    }
}

/// Lines of the packages that would be skipped.
pub open spec fn skip_lines(v: Seq<SkippedPackage>) -> Seq<char>
    decreases v.len(),
{
    if v.len() == 0 {
        seq![]
    } else {
        skip_lines(v.drop_last()) + line(
            "  "@ + v.last().name@ + " "@ + v.last().version@ + " ("@ + v.last().reason@ + ")"@,
        )
    }
}

/// The text printed for a listing: the workspace, the packages that would be
/// checked and those that would be skipped (with reasons).
pub open spec fn spec_list_text(r: ListResult) -> Seq<char> {
    line("Workspace: "@ + r.workspace_root@) + line(seq![]) + (if r.would_check@.len() > 0 {
        line("Would check ("@ + nat_decimal(r.would_check@.len()) + " packages):"@) + check_lines(r.would_check@)
    } else {
        line("Would check: (none)"@)
    }) + line(seq![]) + (if r.would_skip@.len() > 0 {
        line("Would skip ("@ + nat_decimal(r.would_skip@.len()) + " packages):"@) + skip_lines(r.would_skip@)
    } else {
        line("Would skip: (none)"@)
    })
}

/// The text printed for a listing (see `spec_list_text`).
pub fn render_list_text(result: &ListResult) -> (r: String)
    ensures
        r@ == spec_list_text(*result),
{
    let mut out = String::new();
    let mut head = owned("Workspace: ");
    push_str(&mut head, result.workspace_root.as_str());
    push_line(&mut out, head.as_str());
    proof {
        reveal_strlit("");
    }
    push_line(&mut out, "");
    let ghost a = out@;
    if result.would_check.len() > 0 {
        let mut t = owned("Would check (");
        push_str(&mut t, usize_decimal(result.would_check.len()).as_str());
        push_str(&mut t, " packages):");
        push_line(&mut out, t.as_str());
        let ghost b = out@;
        let mut i: usize = 0;
        while i < result.would_check.len()
            invariant
                i <= result.would_check.len(),
                out@ == b + check_lines(result.would_check@.take(i as int)),
            decreases result.would_check.len() - i,
        {
            let p = &result.would_check[i];
            assert(result.would_check@.take(i + 1).drop_last() =~= result.would_check@.take(i as int));
            assert(result.would_check@.take(i + 1).last() == *p);
            let mut u = owned("  ");
            push_str(&mut u, p.name.as_str());
            push_str(&mut u, " ");
            push_str(&mut u, p.version.as_str());
            push_line(&mut out, u.as_str());
            assert(out@ =~= b + check_lines(result.would_check@.take(i + 1)));
            i += 1;
        }
        assert(result.would_check@.take(result.would_check.len() as int) =~= result.would_check@);
    } else {
        push_line(&mut out, "Would check: (none)");
    }
    push_line(&mut out, "");
    let ghost c = out@;
    if result.would_skip.len() > 0 {
        let mut t = owned("Would skip (");
        push_str(&mut t, usize_decimal(result.would_skip.len()).as_str());
        push_str(&mut t, " packages):");
        push_line(&mut out, t.as_str());
        let ghost d = out@;
        let mut i: usize = 0;
        while i < result.would_skip.len()
            invariant
                i <= result.would_skip.len(),
                out@ == d + skip_lines(result.would_skip@.take(i as int)),
            decreases result.would_skip.len() - i,
        {
            let p = &result.would_skip[i];
            assert(result.would_skip@.take(i + 1).drop_last() =~= result.would_skip@.take(i as int));
            assert(result.would_skip@.take(i + 1).last() == *p);
            let mut u = owned("  ");
            push_str(&mut u, p.name.as_str());
            push_str(&mut u, " ");
            push_str(&mut u, p.version.as_str());
            push_str(&mut u, " (");
            push_str(&mut u, p.reason.as_str());
            push_str(&mut u, ")");
            push_line(&mut out, u.as_str());
            assert(out@ =~= d + skip_lines(result.would_skip@.take(i + 1)));
            i += 1;
        }
        assert(result.would_skip@.take(result.would_skip.len() as int) =~= result.would_skip@);
    } else {
        push_line(&mut out, "Would skip: (none)");
    }
    assert(out@ =~= spec_list_text(*result));
    out
}

/// Bulleted lines of texts.
pub open spec fn bullets(v: Seq<Seq<char>>) -> Seq<char>
    decreases v.len(),
{
    if v.len() == 0 {
        seq![]
    } else {
        bullets(v.drop_last()) + line("    - "@ + v.last())
    }
}

/// The text printed for a finding explanation.
pub open spec fn spec_explanation_text(e: FindingExplanation) -> Seq<char> {
    line(e.check_id@ + "/"@ + e.code@) + line("  Title: "@ + e.title@) + line("  Level: "@ + e.default_level@) + line(
        "  Description: "@ + e.description@,
    ) + (if e.causes@.len() > 0 {
        line("  Common causes:"@) + bullets(texts_view(e.causes@))
    } else {
        seq![]
    }) + (if e.fixes@.len() > 0 {
        line("  Suggested fixes:"@) + bullets(texts_view(e.fixes@))
    } else {
        seq![]
    }) + line(seq![])
}

fn push_bullets(out: &mut String, v: &Vec<&'static str>)
    ensures
        final(out)@ == old(out)@ + bullets(texts_view(v@)),
{
    let ghost tv = texts_view(v@);
    let ghost start = out@;
    let mut i: usize = 0;
    while i < v.len()
        invariant
            i <= v.len(),
            tv == texts_view(v@),
            out@ == start + bullets(tv.take(i as int)),
        decreases v.len() - i,
    {
        assert(tv.take(i + 1).drop_last() =~= tv.take(i as int));
        assert(tv.take(i + 1).last() == v@[i as int]@);
        let mut u = owned("    - ");
        push_str(&mut u, v[i]);
        push_line(out, u.as_str());
        assert(out@ =~= start + bullets(tv.take(i + 1)));
        i += 1;
    }
    assert(tv.take(v.len() as int) =~= tv);
}

/// The text printed for a finding explanation: id, title, level, description,
/// causes and fixes, then a blank line.
pub fn render_explanation(e: &FindingExplanation) -> (r: String)
    ensures
        r@ == spec_explanation_text(*e),
{
    let mut out = String::new();
    let mut t = owned(e.check_id);
    push_str(&mut t, "/");
    push_str(&mut t, e.code);
    push_line(&mut out, t.as_str());
    let mut t = owned("  Title: ");
    push_str(&mut t, e.title);
    push_line(&mut out, t.as_str());
    let mut t = owned("  Level: ");
    push_str(&mut t, e.default_level);
    push_line(&mut out, t.as_str());
    let mut t = owned("  Description: ");
    push_str(&mut t, e.description);
    push_line(&mut out, t.as_str());
    let ghost a = out@;
    if e.causes.len() > 0 {
        push_line(&mut out, "  Common causes:");
        push_bullets(&mut out, &e.causes);
    }
    let ghost b = out@;
    if e.fixes.len() > 0 {
        push_line(&mut out, "  Suggested fixes:");
        push_bullets(&mut out, &e.fixes);
    }
    proof {
        reveal_strlit("");
    }
    push_line(&mut out, "");
    assert(out@ =~= spec_explanation_text(*e));
    out
}

/// `s` padded with spaces on the right to `width` characters.
pub open spec fn pad_right(s: Seq<char>, width: nat) -> Seq<char> {
    if s.len() >= width {
        s
    } else {
        s + Seq::new((width - s.len()) as nat, |i: int| ' ')
    }
}

fn push_padded(out: &mut String, s: &str, width: usize)
    ensures
        final(out)@ == old(out)@ + pad_right(s@, width as nat),
{
    let ghost start = out@;
    push_str(out, s);
    let n = s.unicode_len();
    if n < width {
        let mut k: usize = n;
        while k < width
            invariant
                n <= k <= width,
                n == s@.len(),
                out@ == start + s@ + Seq::new((k - n) as nat, |i: int| ' '),
            decreases width - k,
        {
            push_char(out, ' ');
            assert(Seq::new((k + 1 - n) as nat, |i: int| ' ') =~= Seq::new((k - n) as nat, |i: int| ' ').push(' '));
            k += 1;
        }
    } else {
        assert(out@ =~= start + s@);
    }
}

/// One row of the finding table: check id and code in 16 columns, the level in 8,
/// then the title.
pub open spec fn table_row(c: Seq<char>, k: Seq<char>, l: Seq<char>, t: Seq<char>) -> Seq<char> {
    line(pad_right(c, 16) + seq![' '] + pad_right(k, 16) + seq![' '] + pad_right(l, 8) + seq![' '] + t)
}

/// The rows of the finding table.
pub open spec fn table_rows(
    es: Seq<(Seq<char>, Seq<char>, Seq<char>, Seq<char>, Seq<Seq<char>>, Seq<Seq<char>>, Seq<char>)>,
) -> Seq<char>
    decreases es.len(),
{
    if es.len() == 0 {
        seq![]
    } else {
        table_rows(es.drop_last()) + table_row(es.last().0, es.last().1, es.last().6, es.last().2)
    }
}

/// The text printed for the table of all finding types.
pub open spec fn spec_finding_table() -> Seq<char> {
    line("Finding types:\n"@) + table_row("CHECK_ID"@, "CODE"@, "LEVEL"@, "TITLE"@) + line(
        Seq::new(72, |i: int| '-'),
    ) + table_rows(crate::explain::spec_registry())
}

fn push_row(out: &mut String, c: &str, k: &str, l: &str, t: &str)
    ensures
        final(out)@ == old(out)@ + table_row(c@, k@, l@, t@),
{
    let ghost start = out@;
    push_padded(out, c, 16);
    push_char(out, ' ');
    push_padded(out, k, 16);
    push_char(out, ' ');
    push_padded(out, l, 8);
    push_char(out, ' ');
    push_str(out, t);
    push_char(out, '\n');
    assert(out@ =~= start + table_row(c@, k@, l@, t@));
}

/// The text printed for the table of all finding types: a heading, a header row,
/// a rule, and one row per registry entry.
pub fn render_finding_table() -> (r: String)
    ensures
        r@ == spec_finding_table(),
{
    let entries = crate::explain::all();
    let ghost ev = crate::explain::explanations_view(entries@);
    let mut out = String::new();
    push_line(&mut out, "Finding types:\n");
    push_row(&mut out, "CHECK_ID", "CODE", "LEVEL", "TITLE");
    let ghost a = out@;
    let mut k: usize = 0;
    while k < 72
        invariant
            k <= 72,
            out@ == a + Seq::new(k as nat, |i: int| '-'),
        decreases 72 - k,
    {
        push_char(&mut out, '-');
        assert(Seq::new((k + 1) as nat, |i: int| '-') =~= Seq::new(k as nat, |i: int| '-').push('-'));
        k += 1;
    }
    push_char(&mut out, '\n');
    let ghost b = out@;
    let mut i: usize = 0;
    while i < entries.len()
        invariant
            i <= entries.len(),
            ev == crate::explain::explanations_view(entries@),
            ev == crate::explain::spec_registry(),
            out@ == b + table_rows(ev.take(i as int)),
        decreases entries.len() - i,
    {
        let e = &entries[i];
        assert(ev.take(i + 1).drop_last() =~= ev.take(i as int));
        assert(ev.take(i + 1).last() == crate::explain::explanation_view(*e));
        push_row(&mut out, e.check_id, e.code, e.default_level, e.title);
        assert(out@ =~= b + table_rows(ev.take(i + 1)));
        i += 1;
    }
    assert(ev.take(entries.len() as int) =~= ev);
    assert(out@ =~= spec_finding_table());
    out
}

/// What `explain` shows for an optional check id and code.
pub enum ExplainOutcome {
    /// These explanations.
    Entries(Vec<FindingExplanation>),
    /// No finding has this check id.
    UnknownCheck(String),
    /// No finding has this check id and code.
    UnknownFinding(String, String),
}

/// The explanations `explain` shows: all of them without a check id; those of a
/// check id without a code; the one finding with both; or which lookup failed.
pub fn explain_select(check_id: Option<&str>, code: Option<&str>) -> (r: ExplainOutcome)
    ensures
        match (check_id, code) {
            (None, _) => r matches ExplainOutcome::Entries(v) && crate::explain::explanations_view(v@)
                == crate::explain::spec_registry(),
            (Some(c), None) => {
                let want = crate::explain::with_check(crate::explain::spec_registry(), c@);
                if want.len() == 0 {
                    r matches ExplainOutcome::UnknownCheck(x) && x@ == c@
                } else {
                    r matches ExplainOutcome::Entries(v) && crate::explain::explanations_view(v@) == want
                }
            },
            (Some(c), Some(k)) => match crate::explain::spec_lookup(c@, k@) {
                Some(e) => r matches ExplainOutcome::Entries(v) && crate::explain::explanations_view(v@) == seq![e],
                None => r matches ExplainOutcome::UnknownFinding(x, y) && x@ == c@ && y@ == k@,
            },
        },
{
    match check_id {
        None => ExplainOutcome::Entries(crate::explain::all()),
        Some(c) => match code {
            None => {
                let v = crate::explain::lookup_by_check_id(c);
                if v.len() == 0 {
                    ExplainOutcome::UnknownCheck(owned(c))
                } else {
                    ExplainOutcome::Entries(v)
                }
            },
            Some(k) => match crate::explain::lookup(c, k) {
                Some(e) => {
                    let mut v: Vec<FindingExplanation> = Vec::new();
                    v.push(e);
                    assert(crate::explain::explanations_view(v@) =~= seq![crate::explain::explanation_view(v@[0])]);
                    ExplainOutcome::Entries(v)
                },
                None => ExplainOutcome::UnknownFinding(owned(c), owned(k)),
            },
        },
    }
}

/// The lines printed for a configuration's diagnostics: warnings, then errors
/// (after a blank line when both are present); or a note that the file is valid.
pub open spec fn spec_validation_text(path: Seq<char>, warnings: Seq<Seq<char>>, errors: Seq<Seq<char>>) -> Seq<char> {
    if warnings.len() == 0 && errors.len() == 0 {
        line("Configuration is valid: "@ + path)
    } else {
        (if warnings.len() > 0 {
            line("Warnings:"@) + dash_lines(warnings)
        } else {
            seq![]
        }) + (if errors.len() > 0 {
            (if warnings.len() > 0 {
                line(seq![])
            } else {
                seq![]
            }) + line("Errors:"@) + dash_lines(errors)
        } else {
            seq![]
        })
    }
}

/// `  - ` lines of texts.
pub open spec fn dash_lines(v: Seq<Seq<char>>) -> Seq<char>
    decreases v.len(),
{
    if v.len() == 0 {
        seq![]
    } else {
        dash_lines(v.drop_last()) + line("  - "@ + v.last())
    }
}

fn push_dash_lines(out: &mut String, v: &Vec<String>)
    ensures
        final(out)@ == old(out)@ + dash_lines(crate::globs::strings_view(v@)),
{
    let ghost tv = crate::globs::strings_view(v@);
    let ghost start = out@;
    let mut i: usize = 0;
    while i < v.len()
        invariant
            i <= v.len(),
            tv == crate::globs::strings_view(v@),
            out@ == start + dash_lines(tv.take(i as int)),
        decreases v.len() - i,
    {
        assert(tv.take(i + 1).drop_last() =~= tv.take(i as int));
        assert(tv.take(i + 1).last() == v@[i as int]@);
        let mut u = owned("  - ");
        push_str(&mut u, v[i].as_str());
        push_line(out, u.as_str());
        assert(out@ =~= start + dash_lines(tv.take(i + 1)));
        i += 1;
    }
    assert(tv.take(v.len() as int) =~= tv);
}

/// The lines printed for a configuration's diagnostics (see `spec_validation_text`).
/// The check fails when there is an error.
pub fn render_validation(path: &str, result: &crate::config::ValidationResult) -> (r: String)
    ensures
        r@ == spec_validation_text(
            path@,
            crate::globs::strings_view(result.warnings@),
            crate::globs::strings_view(result.errors@),
        ),
{
    let mut out = String::new();
    if result.is_clean() {
        let mut t = owned("Configuration is valid: ");
        push_str(&mut t, path);
        push_line(&mut out, t.as_str());
        return out;
    }
    if result.warnings.len() > 0 {
        push_line(&mut out, "Warnings:");
        push_dash_lines(&mut out, &result.warnings);
    }
    let ghost a = out@;
    if result.errors.len() > 0 {
        if result.warnings.len() > 0 {
            proof {
                reveal_strlit("");
            }
            push_line(&mut out, "");
        }
        push_line(&mut out, "Errors:");
        push_dash_lines(&mut out, &result.errors);
    }
    assert(out@ =~= spec_validation_text(
        path@,
        crate::globs::strings_view(result.warnings@),
        crate::globs::strings_view(result.errors@),
    ));
    out
}

} // verus!
