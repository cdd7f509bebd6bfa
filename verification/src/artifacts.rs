//! Receipt artifact paths: workspace-relative paths, raw log names and the
//! artifact index.
use vstd::prelude::*;
use crate::model::{PackageReport, PackageStatus, RunReport};
use crate::order::{SortKey, sort_order, sorted_positions, keys_view};
use crate::paths::{
    Comp, PathComp, comps_prefix, comps_view, is_absolute, join_comps, join_components, join_path,
    path_components, path_relative_to, spec_components, spec_join,
};
use crate::receipt::{ArtifactIndex, RawLogRef, os, raw_view, raws_view};
use crate::text::{chars_of, contains, owned, push_char, push_str, seq_contains, string_from_chars};

verus! {

/// `s` with every backslash turned into a forward slash.
pub open spec fn forward_slashes(s: Seq<char>) -> Seq<char> {
    s.map_values(|c: char| if c == '\\' { '/' } else { c })
}

/// The last component of a path, when it is a normal name.
pub open spec fn spec_file_name(p: Seq<char>) -> Option<Seq<char>> {
    let c = spec_components(p);
    if c.len() > 0 && c.last() is Normal {
        Some(c.last()->Normal_0)
    } else {
        None
    }
}

/// `full` relative to `root` when `root` is a component-wise prefix, else `full`.
pub open spec fn spec_strip_prefix(full: Seq<char>, root: Seq<char>) -> Seq<char> {
    if comps_prefix(spec_components(root), spec_components(full)) {
        join_comps(spec_components(full).skip(spec_components(root).len() as int))
    } else {
        full
    }
}

/// A path as written into a receipt: relative to the workspace root with forward
/// slashes, or, when that text still holds `..`, the file name alone.
pub open spec fn spec_normalize_receipt_path(root: Seq<char>, path: Seq<char>) -> Seq<char> {
    let r = forward_slashes(spec_strip_prefix(spec_join(root, path), root));
    if seq_contains(r, seq!['.', '.']) {
        match spec_file_name(path) {
            Some(f) => f,
            None => r,
        }
    } else {
        r
    }
}

pub fn replace_backslashes(s: &str) -> (r: String)
    ensures
        r@ == forward_slashes(s@),
{
    let cs = chars_of(s);
    let mut out = String::new();
    let mut i: usize = 0;
    while i < cs.len()
        invariant
            i <= cs.len(),
            cs@ == s@,
            out@ == forward_slashes(cs@.take(i as int)),
        decreases cs.len() - i,
    {
        let c = cs[i];
        push_char(&mut out, if c == '\\' { '/' } else { c });
        assert(forward_slashes(cs@.take(i + 1)) =~= forward_slashes(cs@.take(i as int)).push(
            if c == '\\' { '/' } else { c },
        ));
        i += 1;
    }
    assert(cs@.take(cs.len() as int) =~= cs@);
    out
}

/// The file name of a path, when its last component is a normal name.
pub fn file_name(p: &str) -> (r: Option<String>)
    ensures
        os(r) == spec_file_name(p@),
{
    let c = path_components(p);
    if c.len() == 0 {
        return None;
    }
    let ghost cv = comps_view(c@);
    assert(cv.last() == c@[c.len() - 1]@);
    match &c[c.len() - 1] {
        PathComp::Normal(x) => Some(string_from_chars(x)),
        _ => None,
    }
}

/// A path as written into a receipt: relative to the workspace root with forward
/// slashes. When the text still holds `..` (a path that escapes the root), the
/// file name alone is written, if there is one.
pub fn normalize_receipt_path(workspace_root: &str, path: &str) -> (r: String)
    ensures
        r@ == spec_normalize_receipt_path(workspace_root@, path@),
{
    let full = join_path(workspace_root, path);
    let ghost fullv = full@;
    let stripped = match path_relative_to(full.as_str(), workspace_root) {
        Some(rest) => join_components(&rest),
        None => full,
    };
    assert(stripped@ == spec_strip_prefix(fullv, workspace_root@));
    let result = replace_backslashes(stripped.as_str());
    let rc = chars_of(result.as_str());
    let has_dots = contains(&rc, "..");
    proof {
        reveal_strlit("..");
        assert(".."@ =~= seq!['.', '.']);
    }
    if has_dots {
        match file_name(path) {
            Some(f) => f,
            None => result,
        }
    } else {
        result
    }
}

/// Whether a character is replaced in file name components.
pub open spec fn unsafe_file_char(c: char) -> bool {
    c == '/' || c == '\\' || c == ':' || c == '*' || c == '?' || c == '"' || c == '<' || c == '>'
        || c == '|'
}

/// `s` with path separators and characters that file systems refuse turned into `_`.
pub open spec fn spec_sanitize(s: Seq<char>) -> Seq<char> {
    s.map_values(|c: char| if unsafe_file_char(c) { '_' } else { c })
}

/// `input` made safe as one file name component: `/ \ : * ? " < > |` become `_`.
pub fn sanitize_filename_component(input: &str) -> (r: String)
    ensures
        r@ == spec_sanitize(input@),
{
    let cs = chars_of(input);
    let mut out = String::new();
    let mut i: usize = 0;
    while i < cs.len()
        invariant
            i <= cs.len(),
            cs@ == input@,
            out@ == spec_sanitize(cs@.take(i as int)),
        decreases cs.len() - i,
    {
        let c = cs[i];
        let d = if c == '/' || c == '\\' || c == ':' || c == '*' || c == '?' || c == '"' || c == '<'
            || c == '>' || c == '|' {
            '_'
        } else {
            c
        };
        push_char(&mut out, d);
        assert(spec_sanitize(cs@.take(i + 1)) =~= spec_sanitize(cs@.take(i as int)).push(d));
        i += 1;
    }
    assert(cs@.take(cs.len() as int) =~= cs@);
    out
}

/// The stem of a package's raw log files: `name-version`, both sanitized.
pub open spec fn raw_log_base(name: Seq<char>, version: Seq<char>) -> Seq<char> {
    spec_sanitize(name) + seq!['-'] + spec_sanitize(version)
}

/// The stdout and stderr log paths of a package under the artifacts directory.
pub open spec fn spec_raw_log_paths(artifacts_dir: Seq<char>, name: Seq<char>, version: Seq<char>) -> (
    Seq<char>,
    Seq<char>,
) {
    let raw = spec_join(artifacts_dir, "raw"@);
    (
        spec_join(raw, raw_log_base(name, version) + ".stdout.log"@),
        spec_join(raw, raw_log_base(name, version) + ".stderr.log"@),
    )
}

/// The stdout and stderr log paths of a package under the artifacts directory.
pub fn raw_log_paths(artifacts_dir: &str, pkg: &PackageReport) -> (r: (String, String))
    ensures
        (r.0@, r.1@) == spec_raw_log_paths(artifacts_dir@, pkg.name@, pkg.version@),
{
    let raw_dir = join_path(artifacts_dir, "raw");
    let mut base = sanitize_filename_component(pkg.name.as_str());
    push_char(&mut base, '-');
    let v = sanitize_filename_component(pkg.version.as_str());
    push_str(&mut base, v.as_str());
    let mut out_name = base.clone();
    push_str(&mut out_name, ".stdout.log");
    let mut err_name = base;
    push_str(&mut err_name, ".stderr.log");
    let a = join_path(raw_dir.as_str(), out_name.as_str());
    let b = join_path(raw_dir.as_str(), err_name.as_str());
    proof {
        reveal_strlit("raw");
        reveal_strlit(".stdout.log");
        reveal_strlit(".stderr.log");
    }
    (a, b)
}

/// The sort keys of packages: by name, then version.
pub open spec fn pkg_keys(pk: Seq<PackageReport>) -> Seq<(u8, Seq<Seq<char>>)> {
    pk.map_values(|p: PackageReport| (0u8, seq![p.name@, p.version@]))
}

/// The sort keys of packages: by name, then version.
pub fn package_sort_keys(pk: &Vec<PackageReport>) -> (r: Vec<SortKey>)
    ensures
        keys_view(r@) == pkg_keys(pk@),
{
    let mut keys: Vec<SortKey> = Vec::new();
    let mut i: usize = 0;
    while i < pk.len()
        invariant
            i <= pk.len(),
            keys_view(keys@) == pkg_keys(pk@).take(i as int),
        decreases pk.len() - i,
    {
        let mut parts: Vec<Vec<char>> = Vec::new();
        parts.push(chars_of(pk[i].name.as_str()));
        parts.push(chars_of(pk[i].version.as_str()));
        let ghost before = keys_view(keys@);
        keys.push(SortKey { rank: 0, parts });
        assert(parts@.map_values(|p: Vec<char>| p@) =~= seq![pk@[i as int].name@, pk@[i as int].version@]);
        assert(keys_view(keys@) =~= before.push((0u8, seq![pk@[i as int].name@, pk@[i as int].version@])));
        assert(pkg_keys(pk@).take(i + 1) =~= pkg_keys(pk@).take(i as int).push(
            (0u8, seq![pk@[i as int].name@, pk@[i as int].version@]),
        ));
        i += 1;
    }
    assert(pkg_keys(pk@).take(pk.len() as int) =~= pkg_keys(pk@));
    keys
}

/// The packages in name and version order (input order among equals).
pub open spec fn sorted_packages(pk: Seq<PackageReport>) -> Seq<PackageReport> {
    sorted_positions(pkg_keys(pk)).map_values(|i: usize| pk[i as int])
}

/// The raw log references of the packages in `sorted` that were not skipped.
pub open spec fn spec_raw_log_refs(sorted: Seq<PackageReport>, root: Seq<char>, artifacts_dir: Seq<char>) -> Seq<
    (Seq<char>, Seq<char>, Option<Seq<char>>, Option<Seq<char>>),
>
    decreases sorted.len(),
{
    if sorted.len() == 0 {
        seq![]
    } else {
        let prev = spec_raw_log_refs(sorted.drop_last(), root, artifacts_dir);
        let p = sorted.last();
        if p.status == PackageStatus::Skipped {
            prev
        } else {
            let (o, e) = spec_raw_log_paths(artifacts_dir, p.name@, p.version@);
            prev.push(
                (
                    p.name@,
                    p.version@,
                    Some(spec_normalize_receipt_path(root, o)),
                    Some(spec_normalize_receipt_path(root, e)),
                ),
            )
        }
    }
}

/// Raw log references of the packages that ran, in name and version order.
pub fn build_raw_log_refs(report: &RunReport, workspace_root: &str, artifacts_dir: &str) -> (r: Vec<RawLogRef>)
    ensures
        raws_view(r@) == spec_raw_log_refs(sorted_packages(report.packages@), workspace_root@, artifacts_dir@),
{
    let keys = package_sort_keys(&report.packages);
    let order = sort_order(&keys);
    let ghost sorted = sorted_packages(report.packages@);
    let mut out: Vec<RawLogRef> = Vec::new();
    let mut k: usize = 0;
    while k < order.len()
        invariant
            k <= order.len(),
            order@ == sorted_positions(pkg_keys(report.packages@)),
            order.len() == report.packages.len(),
            forall|i: int| 0 <= i < order.len() ==> #[trigger] order@[i] < report.packages.len(),
            sorted == sorted_packages(report.packages@),
            raws_view(out@) == spec_raw_log_refs(sorted.take(k as int), workspace_root@, artifacts_dir@),
        decreases order.len() - k,
    {
        let pkg = &report.packages[order[k]];
        assert(sorted.take(k + 1).drop_last() =~= sorted.take(k as int));
        assert(sorted.take(k + 1).last() == *pkg);
        if pkg.status != PackageStatus::Skipped {
            let (o, e) = raw_log_paths(artifacts_dir, pkg);
            let so = normalize_receipt_path(workspace_root, o.as_str());
            let se = normalize_receipt_path(workspace_root, e.as_str());
            let ghost before = raws_view(out@);
            out.push(RawLogRef { package: pkg.name.clone(), version: pkg.version.clone(), stdout: Some(so), stderr: Some(se) });
            assert(raws_view(out@) =~= before.push(raw_view(out@[out@.len() - 1])));
        }
        k += 1;
    }
    assert(sorted.take(order.len() as int) =~= sorted);
    out
}

/// Whether an artifact index lists, under `artifacts_dir` and relative to the
/// workspace root, the receipt, the comment, the SARIF report when requested, and
/// the raw logs of the report's packages.
pub open spec fn artifact_index_matches(
    r: ArtifactIndex,
    workspace_root: Seq<char>,
    artifacts_dir: Seq<char>,
    report: Option<RunReport>,
    sarif_requested: bool,
) -> bool {
    &&& r.report_json@ == spec_normalize_receipt_path(workspace_root, spec_join(artifacts_dir, "report.json"@))
    &&& r.comment_md@ == spec_normalize_receipt_path(workspace_root, spec_join(artifacts_dir, "comment.md"@))
    &&& os(r.sarif_json) == (if sarif_requested {
        Some(spec_normalize_receipt_path(workspace_root, spec_join(artifacts_dir, "sarif.json"@)))
    } else {
        None
    })
    &&& raws_view(r.raw_logs@) == match report {
        Some(rep) => spec_raw_log_refs(sorted_packages(rep.packages@), workspace_root, artifacts_dir),
        None => seq![],
    }
}

/// The artifact index of a receipt: the receipt, the comment, the SARIF report
/// when requested, and the raw logs of the report's packages.
pub fn build_artifact_index(
    workspace_root: &str,
    artifacts_dir: &str,
    report: Option<&RunReport>,
    sarif_requested: bool,
) -> (r: ArtifactIndex)
    ensures
        artifact_index_matches(r, workspace_root@, artifacts_dir@, match report {
            Some(x) => Some(*x),
            None => None,
        }, sarif_requested),
{
    let report_json = join_path(artifacts_dir, "report.json");
    let comment_md = join_path(artifacts_dir, "comment.md");
    let sarif_json = if sarif_requested {
        let s = join_path(artifacts_dir, "sarif.json");
        Some(normalize_receipt_path(workspace_root, s.as_str()))
    } else {
        None
    };
    let raw_logs = match report {
        Some(rep) => build_raw_log_refs(rep, workspace_root, artifacts_dir),
        None => {
            let v: Vec<RawLogRef> = Vec::new();
            assert(raws_view(v@) =~= seq![]);
            v
        },
    };
    ArtifactIndex {
        report_json: normalize_receipt_path(workspace_root, report_json.as_str()),
        comment_md: normalize_receipt_path(workspace_root, comment_md.as_str()),
        sarif_json,
        raw_logs,
    }
}

/// What a raw log file of a package holds: the engine's stdout and stderr, or,
/// without engine output, `no output` and the recorded reason.
pub open spec fn spec_raw_log_texts(p: PackageReport) -> (Seq<char>, Seq<char>) {
    match p.engine {
        Some(e) => (e.stdout@, e.stderr@),
        None => (
            "no output"@,
            match p.skip_reason {
                Some(r) => r@,
                None => "no output"@,
            },
        ),
    }
}

/// The raw log files of the packages in `sorted` that ran: path and content of
/// each stdout log, then of each stderr log.
pub open spec fn spec_raw_log_files(sorted: Seq<PackageReport>, artifacts_dir: Seq<char>) -> Seq<(Seq<char>, Seq<char>)>
    decreases sorted.len(),
{
    if sorted.len() == 0 {
        seq![]
    } else {
        let prev = spec_raw_log_files(sorted.drop_last(), artifacts_dir);
        let p = sorted.last();
        if p.status == PackageStatus::Skipped {
            prev
        } else {
            let (o, e) = spec_raw_log_paths(artifacts_dir, p.name@, p.version@);
            let (to, te) = spec_raw_log_texts(p);
            prev.push((o, to)).push((e, te))
        }
    }
}

/// The raw log files to write for a report, in name and version order: for each
/// package that ran, its stdout log and its stderr log with their contents.
pub fn raw_log_files(report: &RunReport, artifacts_dir: &str) -> (r: Vec<(String, String)>)
    ensures
        r@.map_values(|f: (String, String)| (f.0@, f.1@)) == spec_raw_log_files(
            sorted_packages(report.packages@),
            artifacts_dir@,
        ),
{
    let keys = package_sort_keys(&report.packages);
    let order = sort_order(&keys);
    let ghost sorted = sorted_packages(report.packages@);
    let mut out: Vec<(String, String)> = Vec::new();
    let mut k: usize = 0;
    while k < order.len()
        invariant
            k <= order.len(),
            order@ == sorted_positions(pkg_keys(report.packages@)),
            order.len() == report.packages.len(),
            forall|i: int| 0 <= i < order.len() ==> #[trigger] order@[i] < report.packages.len(),
            sorted == sorted_packages(report.packages@),
            out@.map_values(|f: (String, String)| (f.0@, f.1@)) == spec_raw_log_files(sorted.take(k as int), artifacts_dir@),
        decreases order.len() - k,
    {
        let pkg = &report.packages[order[k]];
        assert(sorted.take(k + 1).drop_last() =~= sorted.take(k as int));
        assert(sorted.take(k + 1).last() == *pkg);
        if pkg.status != PackageStatus::Skipped {
            let (o, e) = raw_log_paths(artifacts_dir, pkg);
            let (to, te) = match &pkg.engine {
                Some(en) => (en.stdout.clone(), en.stderr.clone()),
                None => (
                    owned("no output"),
                    match &pkg.skip_reason {
                        Some(r) => r.clone(),
                        None => owned("no output"),
                    },
                ),
            };
            let ghost before = out@.map_values(|f: (String, String)| (f.0@, f.1@));
            let ghost pair_o = (o@, to@);
            let ghost pair_e = (e@, te@);
            out.push((o, to));
            out.push((e, te));
            assert(out@.map_values(|f: (String, String)| (f.0@, f.1@)) =~= before.push(pair_o).push(pair_e));
        }
        k += 1;
    }
    assert(sorted.take(order.len() as int) =~= sorted);
    out
}

} // verus!
