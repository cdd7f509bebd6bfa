//! Explanations of finding codes: what each means, its usual causes and fixes.
use vstd::prelude::*;
use crate::globs::strings_view;
use crate::text::str_eq;

verus! {

/// The explanation of a check id and code.
pub struct FindingExplanation {
    /// Producer (check id).
    pub check_id: &'static str,
    /// Code.
    pub code: &'static str,
    /// Title.
    pub title: &'static str,
    /// Description.
    pub description: &'static str,
    /// Common causes.
    pub causes: Vec<&'static str>,
    /// Suggested fixes.
    pub fixes: Vec<&'static str>,
    /// Default severity.
    pub default_level: &'static str,
}

/// The view of a list of texts.
pub open spec fn texts_view(v: Seq<&'static str>) -> Seq<Seq<char>> {
    v.map_values(|s: &'static str| s@)
}

/// The view of an explanation.
pub open spec fn explanation_view(e: FindingExplanation) -> (
    Seq<char>,
    Seq<char>,
    Seq<char>,
    Seq<char>,
    Seq<Seq<char>>,
    Seq<Seq<char>>,
    Seq<char>,
) {
    (e.check_id@, e.code@, e.title@, e.description@, texts_view(e.causes@), texts_view(e.fixes@), e.default_level@)
}

/// The registry of all known findings.
pub open spec fn spec_registry() -> Seq<
    (Seq<char>, Seq<char>, Seq<char>, Seq<char>, Seq<Seq<char>>, Seq<Seq<char>>, Seq<char>),
> {
    seq![
        (
            "semver"@,
            "violation"@,
            "SemVer Policy Violation"@,
            "A breaking change to the public API was detected that violates semantic versioning rules. The package's public API has changed in a way that is incompatible with the declared version."@,
            seq!["Removed or renamed a public function, method, or type"@, "Changed the signature of a public function (parameters, return type)"@, "Removed a public trait implementation"@, "Changed a public enum (added/removed variants without #[non_exhaustive])"@, "Changed a public struct's fields"@],
            seq!["Revert the breaking change if unintentional"@, "Bump the major version (e.g., 1.0.0 -> 2.0.0)"@, "Add a waiver in semverguard.toml if the break is intentional"@, "Use #[doc(hidden)] for items not intended as public API"@],
            "error"@,
        ),
        (
            "baseline"@,
            "missing"@,
            "Baseline Resolution Error"@,
            "The baseline version or revision could not be resolved. This prevents semver comparison because there is no reference point to compare against."@,
            seq!["The crate has never been published to crates.io"@, "The specified git revision does not exist"@, "Shallow clone without enough history (increase fetch-depth)"@, "Network error when fetching from crates.io registry"@],
            seq!["For new crates: set baseline.on_error.new_crate = 'skip' in config"@, "For git baselines: verify the revision exists with 'git log --oneline <rev>'"@, "For CI: ensure fetch-depth: 0 or sufficient depth"@, "Use --baseline-version to specify an explicit version"@],
            "warning"@,
        ),
        (
            "tool.runtime"@,
            "runtime_error"@,
            "Tool/Runtime Error"@,
            "Semverguard encountered an error during execution that prevented it from completing the check. This is typically a configuration or environment issue, not a semver problem."@,
            seq!["Invalid configuration in semverguard.toml"@, "cargo-semver-checks not installed or not on PATH"@, "Workspace root does not exist or is not a Cargo workspace"@, "Permission errors accessing files or running commands"@],
            seq!["Run 'semverguard validate-config' to check configuration"@, "Ensure cargo-semver-checks is installed: cargo install cargo-semver-checks"@, "Verify workspace root path is correct"@, "Check file permissions and CI environment setup"@],
            "error"@,
        ),
        (
            "engine"@,
            "unknown"@,
            "Unclassifiable Engine Failure"@,
            "The semver checking engine (cargo-semver-checks) failed with an error that could not be classified into a specific category. Check the raw logs for details."@,
            seq!["Internal error in cargo-semver-checks"@, "Rustdoc generation failure"@, "Incompatible toolchain version"@, "Corrupted build artifacts or cache"@],
            seq!["Check the raw stderr log for the specific error"@, "Try clearing the cargo cache: cargo clean"@, "Update cargo-semver-checks to the latest version"@, "Report the issue if it persists"@],
            "error"@,
        ),
    ]
}

fn entry_semver_violation() -> (r: FindingExplanation)
    ensures
        explanation_view(r) == spec_registry()[0],
{
    proof {
        reveal_strlit("semver");
        reveal_strlit("violation");
        reveal_strlit("SemVer Policy Violation");
        reveal_strlit("A breaking change to the public API was detected that violates semantic versioning rules. The package's public API has changed in a way that is incompatible with the declared version.");
        reveal_strlit("error");
        reveal_strlit("Removed or renamed a public function, method, or type");
        reveal_strlit("Changed the signature of a public function (parameters, return type)");
        reveal_strlit("Removed a public trait implementation");
        reveal_strlit("Changed a public enum (added/removed variants without #[non_exhaustive])");
        reveal_strlit("Changed a public struct's fields");
        reveal_strlit("Revert the breaking change if unintentional");
        reveal_strlit("Bump the major version (e.g., 1.0.0 -> 2.0.0)");
        reveal_strlit("Add a waiver in semverguard.toml if the break is intentional");
        reveal_strlit("Use #[doc(hidden)] for items not intended as public API");
    }
    let mut causes: Vec<&'static str> = Vec::new();
    causes.push("Removed or renamed a public function, method, or type");
    causes.push("Changed the signature of a public function (parameters, return type)");
    causes.push("Removed a public trait implementation");
    causes.push("Changed a public enum (added/removed variants without #[non_exhaustive])");
    causes.push("Changed a public struct's fields");
    let mut fixes: Vec<&'static str> = Vec::new();
    fixes.push("Revert the breaking change if unintentional");
    fixes.push("Bump the major version (e.g., 1.0.0 -> 2.0.0)");
    fixes.push("Add a waiver in semverguard.toml if the break is intentional");
    fixes.push("Use #[doc(hidden)] for items not intended as public API");
    let r = FindingExplanation {
        check_id: "semver",
        code: "violation",
        title: "SemVer Policy Violation",
        description: "A breaking change to the public API was detected that violates semantic versioning rules. The package's public API has changed in a way that is incompatible with the declared version.",
        causes,
        fixes,
        default_level: "error",
    };
    assert(texts_view(r.causes@) =~= spec_registry()[0].4);
    assert(texts_view(r.fixes@) =~= spec_registry()[0].5);
    r
}

fn entry_baseline_missing() -> (r: FindingExplanation)
    ensures
        explanation_view(r) == spec_registry()[1],
{
    proof {
        reveal_strlit("baseline");
        reveal_strlit("missing");
        reveal_strlit("Baseline Resolution Error");
        reveal_strlit("The baseline version or revision could not be resolved. This prevents semver comparison because there is no reference point to compare against.");
        reveal_strlit("warning");
        reveal_strlit("The crate has never been published to crates.io");
        reveal_strlit("The specified git revision does not exist");
        reveal_strlit("Shallow clone without enough history (increase fetch-depth)");
        reveal_strlit("Network error when fetching from crates.io registry");
        reveal_strlit("For new crates: set baseline.on_error.new_crate = 'skip' in config");
        reveal_strlit("For git baselines: verify the revision exists with 'git log --oneline <rev>'");
        reveal_strlit("For CI: ensure fetch-depth: 0 or sufficient depth");
        reveal_strlit("Use --baseline-version to specify an explicit version");
    }
    let mut causes: Vec<&'static str> = Vec::new();
    causes.push("The crate has never been published to crates.io");
    causes.push("The specified git revision does not exist");
    causes.push("Shallow clone without enough history (increase fetch-depth)");
    causes.push("Network error when fetching from crates.io registry");
    let mut fixes: Vec<&'static str> = Vec::new();
    fixes.push("For new crates: set baseline.on_error.new_crate = 'skip' in config");
    fixes.push("For git baselines: verify the revision exists with 'git log --oneline <rev>'");
    fixes.push("For CI: ensure fetch-depth: 0 or sufficient depth");
    fixes.push("Use --baseline-version to specify an explicit version");
    let r = FindingExplanation {
        check_id: "baseline",
        code: "missing",
        title: "Baseline Resolution Error",
        description: "The baseline version or revision could not be resolved. This prevents semver comparison because there is no reference point to compare against.",
        causes,
        fixes,
        default_level: "warning",
    };
    assert(texts_view(r.causes@) =~= spec_registry()[1].4);
    assert(texts_view(r.fixes@) =~= spec_registry()[1].5);
    r
}

fn entry_tool_runtime() -> (r: FindingExplanation)
    ensures
        explanation_view(r) == spec_registry()[2],
{
    proof {
        reveal_strlit("tool.runtime");
        reveal_strlit("runtime_error");
        reveal_strlit("Tool/Runtime Error");
        reveal_strlit("Semverguard encountered an error during execution that prevented it from completing the check. This is typically a configuration or environment issue, not a semver problem.");
        reveal_strlit("error");
        reveal_strlit("Invalid configuration in semverguard.toml");
        reveal_strlit("cargo-semver-checks not installed or not on PATH");
        reveal_strlit("Workspace root does not exist or is not a Cargo workspace");
        reveal_strlit("Permission errors accessing files or running commands");
        reveal_strlit("Run 'semverguard validate-config' to check configuration");
        reveal_strlit("Ensure cargo-semver-checks is installed: cargo install cargo-semver-checks");
        reveal_strlit("Verify workspace root path is correct");
        reveal_strlit("Check file permissions and CI environment setup");
    }
    let mut causes: Vec<&'static str> = Vec::new();
    causes.push("Invalid configuration in semverguard.toml");
    causes.push("cargo-semver-checks not installed or not on PATH");
    causes.push("Workspace root does not exist or is not a Cargo workspace");
    causes.push("Permission errors accessing files or running commands");
    let mut fixes: Vec<&'static str> = Vec::new();
    fixes.push("Run 'semverguard validate-config' to check configuration");
    fixes.push("Ensure cargo-semver-checks is installed: cargo install cargo-semver-checks");
    fixes.push("Verify workspace root path is correct");
    fixes.push("Check file permissions and CI environment setup");
    let r = FindingExplanation {
        check_id: "tool.runtime",
        code: "runtime_error",
        title: "Tool/Runtime Error",
        description: "Semverguard encountered an error during execution that prevented it from completing the check. This is typically a configuration or environment issue, not a semver problem.",
        causes,
        fixes,
        default_level: "error",
    };
    assert(texts_view(r.causes@) =~= spec_registry()[2].4);
    assert(texts_view(r.fixes@) =~= spec_registry()[2].5);
    r
}

fn entry_engine_unknown() -> (r: FindingExplanation)
    ensures
        explanation_view(r) == spec_registry()[3],
{
    proof {
        reveal_strlit("engine");
        reveal_strlit("unknown");
        reveal_strlit("Unclassifiable Engine Failure");
        reveal_strlit("The semver checking engine (cargo-semver-checks) failed with an error that could not be classified into a specific category. Check the raw logs for details.");
        reveal_strlit("error");
        reveal_strlit("Internal error in cargo-semver-checks");
        reveal_strlit("Rustdoc generation failure");
        reveal_strlit("Incompatible toolchain version");
        reveal_strlit("Corrupted build artifacts or cache");
        reveal_strlit("Check the raw stderr log for the specific error");
        reveal_strlit("Try clearing the cargo cache: cargo clean");
        reveal_strlit("Update cargo-semver-checks to the latest version");
        reveal_strlit("Report the issue if it persists");
    }
    let mut causes: Vec<&'static str> = Vec::new();
    causes.push("Internal error in cargo-semver-checks");
    causes.push("Rustdoc generation failure");
    causes.push("Incompatible toolchain version");
    causes.push("Corrupted build artifacts or cache");
    let mut fixes: Vec<&'static str> = Vec::new();
    fixes.push("Check the raw stderr log for the specific error");
    fixes.push("Try clearing the cargo cache: cargo clean");
    fixes.push("Update cargo-semver-checks to the latest version");
    fixes.push("Report the issue if it persists");
    let r = FindingExplanation {
        check_id: "engine",
        code: "unknown",
        title: "Unclassifiable Engine Failure",
        description: "The semver checking engine (cargo-semver-checks) failed with an error that could not be classified into a specific category. Check the raw logs for details.",
        causes,
        fixes,
        default_level: "error",
    };
    assert(texts_view(r.causes@) =~= spec_registry()[3].4);
    assert(texts_view(r.fixes@) =~= spec_registry()[3].5);
    r
}

/// The views of explanations.
pub open spec fn explanations_view(v: Seq<FindingExplanation>) -> Seq<
    (Seq<char>, Seq<char>, Seq<char>, Seq<char>, Seq<Seq<char>>, Seq<Seq<char>>, Seq<char>),
> {
    v.map_values(|e: FindingExplanation| explanation_view(e))
}

/// Every known finding explanation, in registry order.
pub fn all() -> (r: Vec<FindingExplanation>)
    ensures
        explanations_view(r@) == spec_registry(),
{
    let mut v: Vec<FindingExplanation> = Vec::new();
    v.push(entry_semver_violation());
    v.push(entry_baseline_missing());
    v.push(entry_tool_runtime());
    v.push(entry_engine_unknown());
    assert(explanations_view(v@) =~= spec_registry());
    v
}

/// The first registry entry with the given check id and code.
pub open spec fn spec_lookup(check_id: Seq<char>, code: Seq<char>) -> Option<
    (Seq<char>, Seq<char>, Seq<char>, Seq<char>, Seq<Seq<char>>, Seq<Seq<char>>, Seq<char>),
> {
    let r = spec_registry();
    if r[0].0 == check_id && r[0].1 == code {
        Some(r[0])
    } else if r[1].0 == check_id && r[1].1 == code {
        Some(r[1])
    } else if r[2].0 == check_id && r[2].1 == code {
        Some(r[2])
    } else if r[3].0 == check_id && r[3].1 == code {
        Some(r[3])
    } else {
        None
    }
}

/// The explanation of a check id and code, if it is known.
pub fn lookup(check_id: &str, code: &str) -> (r: Option<FindingExplanation>)
    ensures
        match r {
            Some(e) => spec_lookup(check_id@, code@) == Some(explanation_view(e)),
            None => spec_lookup(check_id@, code@) is None,
        },
{
    let e = entry_semver_violation();
    if str_eq(e.check_id, check_id) && str_eq(e.code, code) {
        return Some(e);
    }
    let e = entry_baseline_missing();
    if str_eq(e.check_id, check_id) && str_eq(e.code, code) {
        return Some(e);
    }
    let e = entry_tool_runtime();
    if str_eq(e.check_id, check_id) && str_eq(e.code, code) {
        return Some(e);
    }
    let e = entry_engine_unknown();
    if str_eq(e.check_id, check_id) && str_eq(e.code, code) {
        return Some(e);
    }
    None
}

/// The entries of `es` with the given check id, in order.
pub open spec fn with_check(
    es: Seq<(Seq<char>, Seq<char>, Seq<char>, Seq<char>, Seq<Seq<char>>, Seq<Seq<char>>, Seq<char>)>,
    check_id: Seq<char>,
) -> Seq<(Seq<char>, Seq<char>, Seq<char>, Seq<char>, Seq<Seq<char>>, Seq<Seq<char>>, Seq<char>)>
    decreases es.len(),
{
    if es.len() == 0 {
        seq![]
    } else {
        let prev = with_check(es.drop_last(), check_id);
        if es.last().0 == check_id {
            prev.push(es.last())
        } else {
            prev
        }
    }
}

/// The explanations of every code of a check id, in registry order.
pub fn lookup_by_check_id(check_id: &str) -> (r: Vec<FindingExplanation>)
    ensures
        explanations_view(r@) == with_check(spec_registry(), check_id@),
{
    let ghost reg = spec_registry();
    let mut out: Vec<FindingExplanation> = Vec::new();
    let mut k: usize = 0;
    while k < 4
        invariant
            k <= 4,
            reg == spec_registry(),
            reg.len() == 4,
            explanations_view(out@) == with_check(reg.take(k as int), check_id@),
        decreases 4 - k,
    {
        let e = if k == 0 {
            entry_semver_violation()
        } else if k == 1 {
            entry_baseline_missing()
        } else if k == 2 {
            entry_tool_runtime()
        } else {
            entry_engine_unknown()
        };
        assert(reg.take(k + 1).drop_last() =~= reg.take(k as int));
        assert(reg.take(k + 1).last() == explanation_view(e));
        if str_eq(e.check_id, check_id) {
            let ghost before = explanations_view(out@);
            out.push(e);
            assert(explanations_view(out@) =~= before.push(reg[k as int]));
        }
        k += 1;
    }
    assert(reg.take(4) =~= reg);
    out
}

} // verus!
