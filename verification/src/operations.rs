//! Operational helpers: package listing, the report of a skipped PR-mode run,
//! and the PR-mode skip rule.
use vstd::prelude::*;
use crate::artifacts::{package_sort_keys, pkg_keys};
use crate::error::SemverguardError;
use crate::globs::strings_view;
use crate::model::{
    BaselineKind, ListResult, ListedPackage, PackageReport, PackageStatus, ReportView, RunMode, RunReport,
    ScopeMode, SemverguardConfig, SkippedPackage, Summary, WorkspaceMetadata,
};
use crate::order::{sort_order, sorted_positions};
use crate::runner::{
    GitProvider, NoopProgressCallback, SemverEngine, SemverguardRunner, WorkspaceProvider, list_outcome,
    rviews,
};
use crate::text::{
    chars_of, owned, push_str, seq_ascii_lower, spec_trim, str_eq, string_from_chars, to_ascii_lower, trim,
};
use crate::waivers::{split_chars, split_on};

verus! {

/// What a listing works on.
pub struct ListOptions {
    /// Workspace root.
    pub workspace_root: String,
    /// Effective configuration.
    pub config: SemverguardConfig,
}

/// List the packages a run would check and skip, with the given adapters. (That
/// the workspace root exists is checked by the caller.)
pub fn list_with_adapters<W: WorkspaceProvider, G: GitProvider, E: SemverEngine>(
    options: &ListOptions,
    workspace: &W,
    git: Option<&G>,
    engine: &E,
) -> (r: Result<ListResult, SemverguardError>)
    ensures
        list_outcome(workspace, git, options.workspace_root@, options.config, r),
{
    let runner = SemverguardRunner::new(workspace, git, engine);
    runner.list_packages(options.workspace_root.as_str(), &options.config)
}

/// The report entry of a package a run the PR-mode skip rule stopped did not check.
pub open spec fn gated_view(name: Seq<char>, version: Seq<char>, manifest: Seq<char>, reason: Seq<char>) -> ReportView {
    ReportView {
        name,
        version,
        manifest_path: manifest,
        status: PackageStatus::Skipped,
        skip_reason: Some(reason),
        duration_ms: 0,
        command: seq![],
        engine: None,
        inferred_required_bump: None,
        failure_kind: None,
        baseline_error: None,
    }
}

/// The entries of a run the PR-mode skip rule stopped before ordering: the packages that would have been
/// checked (with the skip rule's reason), then those that would have been skipped
/// (with their own reason).
pub open spec fn gated_entries(lr: ListResult, gate_reason: Seq<char>) -> Seq<ReportView> {
    lr.would_check@.map_values(|l: ListedPackage| gated_view(l.name@, l.version@, l.manifest_path@, gate_reason))
        + lr.would_skip@.map_values(|s: SkippedPackage| gated_view(s.name@, s.version@, s.manifest_path@, s.reason@))
}

/// Sort keys of report entries: name, then version.
pub open spec fn view_keys(v: Seq<ReportView>) -> Seq<(u8, Seq<Seq<char>>)> {
    v.map_values(|p: ReportView| (0u8, seq![p.name, p.version]))
}

fn gated_report(name: String, version: String, manifest_path: String, reason: String) -> (r: PackageReport)
    ensures
        r@ == gated_view(name@, version@, manifest_path@, reason@),
{
    let r = PackageReport {
        name,
        version,
        manifest_path,
        status: PackageStatus::Skipped,
        skip_reason: Some(reason),
        duration_ms: 0,
        command: Vec::new(),
        engine: None,
        inferred_required_bump: None,
        failure_kind: None,
        baseline_error: None,
    };
    assert(r@.command =~= seq![]);
    r
}

/// The report of a run that the PR-mode skip rule skipped: every package is skipped,
/// ordered by name and version, and counted as skipped.
pub fn build_pr_mode_skipped_report(
    list_result: ListResult,
    gate_reason: &str,
    started_at: &str,
    finished_at: &str,
    semverguard_version: &str,
) -> (r: RunReport)
    ensures
        rviews(r.packages@) == ({
            let pre = gated_entries(list_result, gate_reason@);
            sorted_positions(view_keys(pre)).map_values(|i: usize| pre[i as int])
        }),
        r.summary == (Summary {
            total: r.packages@.len() as usize,
            passed: 0,
            failed: 0,
            skipped: r.packages@.len() as usize,
        }),
        r.semverguard_version@ == semverguard_version@,
        r.started_at@ == started_at@,
        r.finished_at@ == finished_at@,
        r.workspace_root == list_result.workspace_root,
{
    let ghost pre = gated_entries(list_result, gate_reason@);
    let ghost nc = list_result.would_check@.len();
    let ListResult { workspace_root, would_check, would_skip } = list_result;
    let mut packages: Vec<PackageReport> = Vec::new();
    let mut i: usize = 0;
    while i < would_check.len()
        invariant
            i <= would_check.len(),
            nc == would_check@.len(),
            pre == gated_entries(ListResult { workspace_root, would_check, would_skip }, gate_reason@),
            rviews(packages@) == pre.take(i as int),
        decreases would_check.len() - i,
    {
        let l = &would_check[i];
        let p = gated_report(l.name.clone(), l.version.clone(), l.manifest_path.clone(), owned(gate_reason));
        let ghost before = rviews(packages@);
        packages.push(p);
        assert(pre[i as int] == gated_view(l.name@, l.version@, l.manifest_path@, gate_reason@));
        assert(rviews(packages@) =~= before.push(pre[i as int]));
        assert(pre.take(i + 1) =~= pre.take(i as int).push(pre[i as int]));
        i += 1;
    }
    let mut j: usize = 0;
    while j < would_skip.len()
        invariant
            j <= would_skip.len(),
            nc == would_check@.len(),
            pre == gated_entries(ListResult { workspace_root, would_check, would_skip }, gate_reason@),
            pre.len() == nc + would_skip@.len(),
            rviews(packages@) == pre.take(nc + j),
        decreases would_skip.len() - j,
    {
        let s = &would_skip[j];
        let p = gated_report(s.name.clone(), s.version.clone(), s.manifest_path.clone(), s.reason.clone());
        let ghost before = rviews(packages@);
        packages.push(p);
        assert(pre[nc + j] == gated_view(s.name@, s.version@, s.manifest_path@, s.reason@));
        assert(rviews(packages@) =~= before.push(pre[nc + j]));
        assert(pre.take(nc + j + 1) =~= pre.take(nc + j).push(pre[nc + j]));
        j += 1;
    }
    assert(pre.take(pre.len() as int) =~= pre);
    let keys = package_sort_keys(&packages);
    assert(pkg_keys(packages@) =~= view_keys(pre));
    let order = sort_order(&keys);
    let ghost want = sorted_positions(view_keys(pre)).map_values(|i: usize| pre[i as int]);
    let mut sorted: Vec<PackageReport> = Vec::new();
    let mut k: usize = 0;
    while k < order.len()
        invariant
            k <= order.len(),
            order.len() == packages.len(),
            rviews(packages@) == pre,
            order@ == sorted_positions(view_keys(pre)),
            forall|q: int| 0 <= q < order.len() ==> #[trigger] order@[q] < packages.len(),
            want == sorted_positions(view_keys(pre)).map_values(|i: usize| pre[i as int]),
            rviews(sorted@) == want.take(k as int),
        decreases order.len() - k,
    {
        let ghost before = rviews(sorted@);
        let p = packages[order[k]].clone();
        assert(rviews(packages@)[order@[k as int] as int] == packages@[order@[k as int] as int]@);
        sorted.push(p);
        assert(want[k as int] == pre[order@[k as int] as int]);
        assert(rviews(sorted@) =~= before.push(want[k as int]));
        assert(want.take(k + 1) =~= want.take(k as int).push(want[k as int]));
        k += 1;
    }
    assert(want.take(order.len() as int) =~= want);
    let total = sorted.len();
    RunReport {
        semverguard_version: owned(semverguard_version),
        started_at: owned(started_at),
        finished_at: owned(finished_at),
        workspace_root,
        packages: sorted,
        summary: Summary { total, passed: 0, failed: 0, skipped: total },
    }
}

/// A label as compared: trimmed and in ASCII lowercase.
pub open spec fn spec_normalize_label(l: Seq<char>) -> Seq<char> {
    seq_ascii_lower(spec_trim(l))
}

/// A label as compared: trimmed and in ASCII lowercase.
pub fn normalize_label(label: &str) -> (r: String)
    ensures
        r@ == spec_normalize_label(label@),
{
    let cs = chars_of(label);
    let t = trim(&cs);
    let l = to_ascii_lower(&t);
    string_from_chars(&l)
}

/// The normalized labels of a list, dropping empty ones, in order.
pub open spec fn labels_of(parts: Seq<Seq<char>>) -> Seq<Seq<char>>
    decreases parts.len(),
{
    if parts.len() == 0 {
        seq![]
    } else {
        let prev = labels_of(parts.drop_last());
        let l = spec_normalize_label(parts.last());
        if l.len() == 0 {
            prev
        } else {
            prev.push(l)
        }
    }
}

/// The labels of a comma-separated list: each trimmed and lowercased, empty
/// ones dropped.
pub fn parse_label_list(raw: &str) -> (r: Vec<String>)
    ensures
        strings_view(r@) == labels_of(split_on(raw@, ',')),
{
    let cs = chars_of(raw);
    let parts = split_chars(&cs, ',');
    let ghost pv = parts@.map_values(|p: Vec<char>| p@);
    let mut out: Vec<String> = Vec::new();
    let mut i: usize = 0;
    while i < parts.len()
        invariant
            i <= parts.len(),
            pv == parts@.map_values(|p: Vec<char>| p@),
            pv == split_on(raw@, ','),
            strings_view(out@) == labels_of(pv.take(i as int)),
        decreases parts.len() - i,
    {
        assert(pv.take(i + 1).drop_last() =~= pv.take(i as int));
        assert(pv.take(i + 1).last() == parts@[i as int]@);
        let t = trim(&parts[i]);
        let l = to_ascii_lower(&t);
        if l.len() > 0 {
            let ghost before = strings_view(out@);
            out.push(string_from_chars(&l));
            assert(strings_view(out@) =~= before.push(l@));
        }
        i += 1;
    }
    assert(pv.take(parts.len() as int) =~= pv);
    out
}

/// Labels that force a check in PR mode.
pub open spec fn force_labels() -> Seq<Seq<char>> {
    seq!["semver:run"@, "semverguard:run"@, "semverguard/run"@, "semver-check"@, "run-semverguard"@]
}

/// Whether some label forces a check in PR mode.
pub open spec fn spec_labels_force_run(labels: Seq<Seq<char>>) -> bool {
    exists|i: int, j: int| 0 <= i < labels.len() && 0 <= j < 5 && #[trigger] labels[i] == #[trigger] force_labels()[j]
}

/// Whether some label (already normalized) forces a check in PR mode:
/// `semver:run`, `semverguard:run`, `semverguard/run`, `semver-check` or
/// `run-semverguard`.
pub fn labels_force_run(labels: &Vec<String>) -> (r: bool)
    ensures
        r == spec_labels_force_run(strings_view(labels@)),
{
    let ghost lv = strings_view(labels@);
    proof {
        reveal_strlit("semver:run");
        reveal_strlit("semverguard:run");
        reveal_strlit("semverguard/run");
        reveal_strlit("semver-check");
        reveal_strlit("run-semverguard");
    }
    let mut i: usize = 0;
    while i < labels.len()
        invariant
            i <= labels.len(),
            lv == strings_view(labels@),
            forall|a: int, b: int| 0 <= a < i && 0 <= b < 5 ==> #[trigger] lv[a] != #[trigger] force_labels()[b],
        decreases labels.len() - i,
    {
        let l = labels[i].as_str();
        assert(lv[i as int] == l@);
        if str_eq(l, "semver:run") || str_eq(l, "semverguard:run") || str_eq(l, "semverguard/run") || str_eq(
            l,
            "semver-check",
        ) || str_eq(l, "run-semverguard") {
            proof {
                reveal_strlit("semver:run");
                reveal_strlit("semverguard:run");
                reveal_strlit("semverguard/run");
                reveal_strlit("semver-check");
                reveal_strlit("run-semverguard");
                if l@ == "semver:run"@ {
                    assert(lv[i as int] == force_labels()[0]);
                } else if l@ == "semverguard:run"@ {
                    assert(lv[i as int] == force_labels()[1]);
                } else if l@ == "semverguard/run"@ {
                    assert(lv[i as int] == force_labels()[2]);
                } else if l@ == "semver-check"@ {
                    assert(lv[i as int] == force_labels()[3]);
                } else {
                    assert(lv[i as int] == force_labels()[4]);
                }
            }
            return true;
        }
        proof {
            reveal_strlit("semver:run");
            reveal_strlit("semverguard:run");
            reveal_strlit("semverguard/run");
            reveal_strlit("semver-check");
            reveal_strlit("run-semverguard");
            assert forall|b: int| 0 <= b < 5 implies lv[i as int] != #[trigger] force_labels()[b] by {
                if b == 0 {
                } else if b == 1 {
                } else if b == 2 {
                } else if b == 3 {
                } else {
                }
            }
        }
        i += 1;
    }
    false
}

/// The baseline revision the PR-mode skip rule compares against, when the rule applies:
/// a PR-lane run over changed packages, without a forcing label, against a git
/// baseline with a revision.
pub open spec fn spec_pr_skip_rev(config: SemverguardConfig, resolved_mode: RunMode, force_label: bool) -> Option<
    Seq<char>,
> {
    if resolved_mode != RunMode::Pr || config.scope.mode != ScopeMode::Changed || force_label
        || config.baseline.kind != BaselineKind::Git {
        None
    } else {
        match config.baseline.rev {
            Some(r) => Some(r@),
            None => None,
        }
    }
}

/// The baseline revision the PR-mode skip rule compares against, when the rule
/// applies (see `spec_pr_skip_rev`).
pub fn pr_mode_skip_rev(config: &SemverguardConfig, resolved_mode: RunMode, force_label: bool) -> (r: Option<String>)
    ensures
        match r {
            Some(s) => spec_pr_skip_rev(*config, resolved_mode, force_label) == Some(s@),
            None => spec_pr_skip_rev(*config, resolved_mode, force_label) is None,
        },
{
    if resolved_mode != RunMode::Pr {
        return None;
    }
    if config.scope.mode != ScopeMode::Changed {
        return None;
    }
    if force_label {
        return None;
    }
    if config.baseline.kind != BaselineKind::Git {
        return None;
    }
    match &config.baseline.rev {
        Some(r) => Some(r.clone()),
        None => None,
    }
}

/// Why the PR-mode skip rule skips the checks, given what version-change detection
/// against `rev` said: nothing when a manifest version changed; a note when none
/// did or when detection failed.
pub open spec fn spec_pr_skip_message(rev: Seq<char>, detection: Result<bool, Seq<char>>) -> Option<Seq<char>> {
    match detection {
        Ok(true) => None,
        Ok(false) => Some(
            "pr mode gate: skipped because no Cargo.toml version change was detected relative to "@ + rev
                + ", and no forcing label is present"@,
        ),
        Err(e) => Some("pr mode gate: skipped because version-change detection failed relative to "@ + rev + ": "@ + e),
    }
}

/// Why the PR-mode skip rule skips the checks (see `spec_pr_skip_message`).
pub fn pr_mode_skip_message(rev: &str, detection: &Result<bool, String>) -> (r: Option<String>)
    ensures
        match r {
            Some(s) => spec_pr_skip_message(rev@, match detection {
                Ok(b) => Ok(*b),
                Err(e) => Err(e@),
            }) == Some(s@),
            None => spec_pr_skip_message(rev@, match detection {
                Ok(b) => Ok(*b),
                Err(e) => Err(e@),
            }) is None,
        },
{
    match detection {
        Ok(true) => None,
        Ok(false) => {
            let mut s = owned("pr mode gate: skipped because no Cargo.toml version change was detected relative to ");
            push_str(&mut s, rev);
            push_str(&mut s, ", and no forcing label is present");
            Some(s)
        },
        Err(e) => {
            let mut s = owned("pr mode gate: skipped because version-change detection failed relative to ");
            push_str(&mut s, rev);
            push_str(&mut s, ": ");
            push_str(&mut s, e.as_str());
            Some(s)
        },
    }
}

/// What probing git found.
pub struct GitProbe {
    /// Git can be called from the workspace root.
    pub available: bool,
    /// The repository is shallow.
    pub shallow_clone: bool,
    /// `git --version` output.
    pub version: Option<String>,
}


/// A JSON value (`serde_json`).
#[verifier::external_type_specification]
#[verifier::external_body]
pub struct ExJsonValue(serde_json::Value);

/// A JSON value as plain data; an object is its (key, value) entries.
pub enum JsonNode {
    /// `null`.
    Null,
    /// A boolean.
    Bool(bool),
    /// A number, as written.
    Number(Seq<char>),
    /// A string.
    Str(Seq<char>),
    /// An array.
    Array(Seq<JsonNode>),
    /// An object.
    Object(Seq<(Seq<char>, JsonNode)>),
}

/// What a `serde_json::Value` holds.
pub uninterp spec fn json_tree(v: serde_json::Value) -> JsonNode;

/// What `serde_json::from_str::<Value>` makes of a text: the value, or nothing when
/// the text is not JSON.
pub uninterp spec fn json_parse(raw: Seq<char>) -> Option<JsonNode>;

/// The value of the first entry with `key`.
pub open spec fn entry_value(es: Seq<(Seq<char>, JsonNode)>, key: Seq<char>) -> Option<JsonNode>
    decreases es.len(),
{
    if es.len() == 0 {
        None
    } else if es[0].0 == key {
        Some(es[0].1)
    } else {
        entry_value(es.drop_first(), key)
    }
}

/// The member `key` of an object; nothing for other values.
pub open spec fn json_field(n: JsonNode, key: Seq<char>) -> Option<JsonNode> {
    match n {
        JsonNode::Object(es) => entry_value(es, key),
        _ => None,
    }
}

/// The normalized `name` strings of label objects, in order (entries without a
/// string `name` give none).
pub open spec fn label_names(items: Seq<JsonNode>) -> Seq<Seq<char>>
    decreases items.len(),
{
    if items.len() == 0 {
        seq![]
    } else {
        let prev = label_names(items.drop_last());
        match json_field(items.last(), "name"@) {
            Some(JsonNode::Str(s)) => prev.push(spec_normalize_label(s)),
            _ => prev,
        }
    }
}

/// The labels of a GitHub event: the normalized names under
/// `pull_request.labels`, in order; none when that is not an array.
pub open spec fn spec_event_labels(event: JsonNode) -> Seq<Seq<char>> {
    match json_field(event, "pull_request"@) {
        Some(pr) => match json_field(pr, "labels"@) {
            Some(JsonNode::Array(items)) => label_names(items),
            _ => seq![],
        },
        None => seq![],
    }
}

/// `serde_json::from_str::<Value>`, the error dropped.
#[verifier::external_body]
fn parse_json_value(raw: &str) -> (r: Option<serde_json::Value>)
    ensures
        match r {
            Some(v) => json_parse(raw@) == Some(json_tree(v)),
            None => json_parse(raw@) is None,
        },
{
    serde_json::from_str::<serde_json::Value>(raw).ok()
}

/// `Value::get` with a key: the member of an object.
#[verifier::external_body]
fn json_get<'a>(v: &'a serde_json::Value, key: &str) -> (r: Option<&'a serde_json::Value>)
    ensures
        match r {
            Some(c) => json_field(json_tree(*v), key@) == Some(json_tree(*c)),
            None => json_field(json_tree(*v), key@) is None,
        },
{
    v.get(key)
}

/// `Value::as_array`: the items of an array.
#[verifier::external_body]
fn json_items(v: &serde_json::Value) -> (r: Option<&Vec<serde_json::Value>>)
    ensures
        match r {
            Some(a) => json_tree(*v) is Array && a@.len() == json_tree(*v)->Array_0.len() && forall|i: int|
                0 <= i < a@.len() ==> json_tree(#[trigger] a@[i]) == json_tree(*v)->Array_0[i],
            None => !(json_tree(*v) is Array),
        },
{
    v.as_array()
}

/// `Value::as_str`: the text of a string.
#[verifier::external_body]
fn json_text(v: &serde_json::Value) -> (r: Option<String>)
    ensures
        match r {
            Some(s) => json_tree(*v) == JsonNode::Str(s@),
            None => !(json_tree(*v) is Str),
        },
{
    match v.as_str() {
        Some(s) => Some(s.to_string()),
        None => None,
    }
}

/// The labels of a GitHub event (see `spec_event_labels`).
pub fn labels_of_event(event: &serde_json::Value) -> (r: Vec<String>)
    ensures
        strings_view(r@) == spec_event_labels(json_tree(*event)),
{
    let mut out: Vec<String> = Vec::new();
    let pr = match json_get(event, "pull_request") {
        Some(p) => p,
        None => return out,
    };
    let labels = match json_get(pr, "labels") {
        Some(l) => l,
        None => return out,
    };
    let items = match json_items(labels) {
        Some(a) => a,
        None => return out,
    };
    let ghost nodes = json_tree(*labels)->Array_0;
    let mut k: usize = 0;
    while k < items.len()
        invariant
            k <= items.len(),
            items@.len() == nodes.len(),
            forall|i: int| 0 <= i < items@.len() ==> json_tree(#[trigger] items@[i]) == nodes[i],
            strings_view(out@) == label_names(nodes.take(k as int)),
        decreases items.len() - k,
    {
        assert(nodes.take(k + 1).drop_last() =~= nodes.take(k as int));
        assert(nodes.take(k + 1).last() == json_tree(items@[k as int]));
        match json_get(&items[k], "name") {
            Some(nv) => match json_text(nv) {
                Some(s) => {
                    let ghost before = strings_view(out@);
                    out.push(normalize_label(s.as_str()));
                    assert(strings_view(out@) =~= before.push(spec_normalize_label(s@)));
                },
                None => {},
            },
            None => {},
        }
        k += 1;
    }
    assert(nodes.take(items@.len() as int) =~= nodes);
    out
}

/// The labels of a GitHub event file's text: none when it is not JSON.
pub fn event_labels(raw: &str) -> (r: Vec<String>)
    ensures
        strings_view(r@) == match json_parse(raw@) {
            Some(n) => spec_event_labels(n),
            None => seq![],
        },
{
    match parse_json_value(raw) {
        Some(v) => labels_of_event(&v),
        None => Vec::new(),
    }
}

} // verus!
