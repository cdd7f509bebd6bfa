//! Findings of a receipt: one per failed package, with a stable fingerprint.
use vstd::prelude::*;
use vstd::utf8::encode_utf8;
use sha2::Digest;
use crate::artifacts::{
    package_sort_keys, pkg_keys, sorted_packages, spec_normalize_receipt_path, normalize_receipt_path,
};
use crate::model::{
    BaselineErrorCause, FailureKind, FindingLevel, PackageReport, PackageStatus, RequiredBump, RunReport,
};
use crate::order::{sort_order, sorted_positions};
use crate::receipt::{
    ArtifactIndex, DataView, Finding, FindingData, FindingLocation, FindingView, LocationView, RawLogRef,
    findings_view, os, raws_view, CHECK_BASELINE, CHECK_ENGINE, CHECK_SEMVER, CHECK_TOOL, CODE_ERROR,
    CODE_MISSING, CODE_UNKNOWN, CODE_VIOLATION,
};
use crate::text::{nat_decimal, owned, push_char, push_str, spec_trim, str_eq, trim_str, u128_decimal};

verus! {

/// What `sha2::Sha256` computes for a byte string.
pub uninterp spec fn sha256_digest(data: Seq<u8>) -> Seq<u8>;

/// SHA-256 of `data`, by `sha2::Sha256::digest`: the digest of the bytes, 32 of them.
#[verifier::external_body]
fn sha256_of(data: &[u8]) -> (r: Vec<u8>)
    ensures
        r@ == sha256_digest(data@),
        r@.len() == 32,
{
    sha2::Sha256::digest(data).to_vec()
}

/// A lowercase hexadecimal digit.
pub open spec fn hex_digit(n: int) -> char {
    if n < 10 {
        (n + 48) as char
    } else {
        (n + 87) as char
    }
}

/// Bytes as lowercase hexadecimal, two digits per byte, high nibble first.
pub open spec fn spec_hex(b: Seq<u8>) -> Seq<char>
    decreases b.len(),
{
    if b.len() == 0 {
        seq![]
    } else {
        spec_hex(b.drop_last()) + seq![hex_digit(b.last() as int / 16), hex_digit(b.last() as int % 16)]
    }
}

/// Whether a character is a lowercase hexadecimal digit.
pub open spec fn is_lower_hex(c: char) -> bool {
    ('0' <= c && c <= '9') || ('a' <= c && c <= 'f')
}

/// Hexadecimal text has two lowercase digits per byte.
pub proof fn lemma_spec_hex(b: Seq<u8>)
    ensures
        spec_hex(b).len() == 2 * b.len(),
        forall|i: int| 0 <= i < spec_hex(b).len() ==> is_lower_hex(#[trigger] spec_hex(b)[i]),
    decreases b.len(),
{
    if b.len() > 0 {
        lemma_spec_hex(b.drop_last());
        let hi = b.last() as int / 16;
        let lo = b.last() as int % 16;
        assert(is_lower_hex(hex_digit(hi)) && is_lower_hex(hex_digit(lo)));
        let prev = spec_hex(b.drop_last());
        assert forall|i: int| 0 <= i < spec_hex(b).len() implies is_lower_hex(#[trigger] spec_hex(b)[i]) by {
            if i < prev.len() {
                assert(spec_hex(b)[i] == prev[i]);
            }
        }
    }
}

/// `hex::encode`: each byte as two lowercase hexadecimal digits, high nibble first.
#[verifier::external_body]
fn hex_encode(data: &[u8]) -> (r: String)
    ensures
        r@ == spec_hex(data@),
{
    hex::encode(data)
}

/// The bytes a fingerprint hashes: a domain tag and the four fields, NUL-separated.
pub open spec fn fingerprint_input(check_id: Seq<char>, code: Seq<char>, name: Seq<char>, version: Seq<char>) -> Seq<u8> {
    encode_utf8("semverguard"@) + seq![0u8] + encode_utf8(check_id) + seq![0u8] + encode_utf8(code) + seq![0u8]
        + encode_utf8(name) + seq![0u8] + encode_utf8(version)
}

/// The fingerprint of a finding: hexadecimal SHA-256 of its input.
pub open spec fn spec_fingerprint(check_id: Seq<char>, code: Seq<char>, name: Seq<char>, version: Seq<char>) -> Seq<char> {
    spec_hex(sha256_digest(fingerprint_input(check_id, code, name, version)))
}

fn push_bytes(v: &mut Vec<u8>, s: &str)
    ensures
        final(v)@ == old(v)@ + encode_utf8(s@),
{
    let b = s.as_bytes();
    let ghost before = v@;
    v.extend_from_slice(b);
    assert(v@ =~= before + b@);
}

/// A stable fingerprint of a finding: 64 lowercase hexadecimal digits of the SHA-256
/// of `semverguard`, the check id, the code, the package name and its version,
/// NUL-separated. Equal inputs give equal fingerprints in every run.
pub fn compute_fingerprint(check_id: &str, code: &str, pkg_name: &str, pkg_version: &str) -> (r: String)
    ensures
        r@ == spec_fingerprint(check_id@, code@, pkg_name@, pkg_version@),
        r@.len() == 64,
        forall|i: int| 0 <= i < r@.len() ==> is_lower_hex(#[trigger] r@[i]),
{
    let mut data: Vec<u8> = Vec::new();
    push_bytes(&mut data, "semverguard");
    data.push(0u8);
    push_bytes(&mut data, check_id);
    data.push(0u8);
    push_bytes(&mut data, code);
    data.push(0u8);
    push_bytes(&mut data, pkg_name);
    data.push(0u8);
    push_bytes(&mut data, pkg_version);
    assert(data@ =~= fingerprint_input(check_id@, code@, pkg_name@, pkg_version@));
    let digest = sha256_of(data.as_slice());
    proof {
        lemma_spec_hex(digest@);
    }
    hex_encode(digest.as_slice())
}

/// The receipt token of a required bump.
pub open spec fn bump_text(b: RequiredBump) -> Seq<char> {
    match b {
        RequiredBump::Major => "major"@,
        RequiredBump::Minor => "minor"@,
        RequiredBump::Patch => "patch"@,
        RequiredBump::Unknown => "unknown"@,
    }
}

/// The receipt token of a required bump.
pub fn required_bump_str(b: RequiredBump) -> (r: &'static str)
    ensures
        r@ == bump_text(b),
{
    proof {
        reveal_strlit("major");
        reveal_strlit("minor");
        reveal_strlit("patch");
        reveal_strlit("unknown");
    }
    match b {
        RequiredBump::Major => "major",
        RequiredBump::Minor => "minor",
        RequiredBump::Patch => "patch",
        RequiredBump::Unknown => "unknown",
    }
}

/// The receipt token of a failure kind.
pub open spec fn kind_text(k: FailureKind) -> Seq<char> {
    match k {
        FailureKind::SemverViolation => "semver-violation"@,
        FailureKind::ToolError => "tool-error"@,
        FailureKind::BaselineError => "baseline-error"@,
        FailureKind::Unknown => "unknown"@,
    }
}

/// The receipt token of a failure kind.
pub fn failure_kind_str(k: FailureKind) -> (r: &'static str)
    ensures
        r@ == kind_text(k),
{
    proof {
        reveal_strlit("semver-violation");
        reveal_strlit("tool-error");
        reveal_strlit("baseline-error");
        reveal_strlit("unknown");
    }
    match k {
        FailureKind::SemverViolation => "semver-violation",
        FailureKind::ToolError => "tool-error",
        FailureKind::BaselineError => "baseline-error",
        FailureKind::Unknown => "unknown",
    }
}

/// What `semver::Version::parse` gives for a text: its major, minor and patch
/// numbers, or nothing when the text is not a version.
pub uninterp spec fn semver_parse(text: Seq<char>) -> Option<(u64, u64, u64)>;

/// `semver::Version::parse`, reduced to the numbers.
#[verifier::external_body]
fn parse_version_numbers(text: &str) -> (r: Option<(u64, u64, u64)>)
    ensures
        r == semver_parse(text@),
{
    match semver::Version::parse(text) {
        Ok(v) => Some((v.major, v.minor, v.patch)),
        Err(_) => None,
    }
}

/// `major.minor.patch` in decimal.
pub open spec fn version_text(major: nat, minor: nat, patch: nat) -> Seq<char> {
    nat_decimal(major) + seq!['.'] + nat_decimal(minor) + seq!['.'] + nat_decimal(patch)
}

/// The version after a bump, from parsed version numbers. A number that would
/// pass `u64::MAX` gives nothing.
pub open spec fn spec_bumped(parts: Option<(u64, u64, u64)>, bump: RequiredBump) -> Option<Seq<char>> {
    match parts {
        None => None,
        Some((ma, mi, pa)) => match bump {
            RequiredBump::Major => if ma < u64::MAX {
                Some(version_text((ma + 1) as nat, 0, 0))
            } else {
                None
            },
            RequiredBump::Minor => if mi < u64::MAX {
                Some(version_text(ma as nat, (mi + 1) as nat, 0))
            } else {
                None
            },
            RequiredBump::Patch => if pa < u64::MAX {
                Some(version_text(ma as nat, mi as nat, (pa + 1) as nat))
            } else {
                None
            },
            RequiredBump::Unknown => None,
        },
    }
}

fn version_string(major: u64, minor: u64, patch: u64) -> (r: String)
    ensures
        r@ == version_text(major as nat, minor as nat, patch as nat),
{
    let mut s = u128_decimal(major as u128);
    push_char(&mut s, '.');
    let t = u128_decimal(minor as u128);
    push_str(&mut s, t.as_str());
    push_char(&mut s, '.');
    let u = u128_decimal(patch as u128);
    push_str(&mut s, u.as_str());
    s
}

/// The version after a bump, from parsed version numbers (see `spec_bumped`).
pub fn bumped_version(parts: Option<(u64, u64, u64)>, bump: RequiredBump) -> (r: Option<String>)
    ensures
        os(r) == spec_bumped(parts, bump),
{
    match parts {
        None => None,
        Some((ma, mi, pa)) => match bump {
            RequiredBump::Major => if ma < u64::MAX {
                Some(version_string(ma + 1, 0, 0))
            } else {
                None
            },
            RequiredBump::Minor => if mi < u64::MAX {
                Some(version_string(ma, mi + 1, 0))
            } else {
                None
            },
            RequiredBump::Patch => if pa < u64::MAX {
                Some(version_string(ma, mi, pa + 1))
            } else {
                None
            },
            RequiredBump::Unknown => None,
        },
    }
}

/// The suggested next version of `version` after `bump`.
pub open spec fn spec_suggested_version(version: Seq<char>, bump: RequiredBump) -> Option<Seq<char>> {
    spec_bumped(semver_parse(version), bump)
}

/// The suggested next version of `version` after `bump`: nothing when `version` is
/// not a SemVer version or the bump is unknown.
pub fn compute_suggested_version(version: &str, bump: RequiredBump) -> (r: Option<String>)
    ensures
        os(r) == spec_suggested_version(version@, bump),
{
    let parts = parse_version_numbers(version);
    bumped_version(parts, bump)
}

/// Why a package failed as the engine's trimmed stderr says it, else the recorded
/// reason, else `fallback`.
pub open spec fn failure_detail(p: PackageReport, fallback: Seq<char>) -> Seq<char> {
    match p.engine {
        Some(e) if spec_trim(e.stderr@).len() > 0 => spec_trim(e.stderr@),
        _ => match p.skip_reason {
            Some(r) => r@,
            None => fallback,
        },
    }
}

/// `` `name` (vversion)``.
pub open spec fn pkg_ref(p: PackageReport) -> Seq<char> {
    "`"@ + p.name@ + "` (v"@ + p.version@ + ")"@
}

/// The message of a package finding.
pub open spec fn spec_failure_message(p: PackageReport, kind: FailureKind) -> Seq<char> {
    match kind {
        FailureKind::SemverViolation => match p.inferred_required_bump {
            Some(b) => "Package "@ + pkg_ref(p) + " requires a "@ + bump_text(b) + " version bump"@,
            None => "Package "@ + pkg_ref(p) + " failed semantic versioning checks"@,
        },
        FailureKind::BaselineError => "Baseline error for "@ + pkg_ref(p) + ": "@ + failure_detail(
            p,
            "baseline error"@,
        ),
        FailureKind::ToolError => "Tool error for "@ + pkg_ref(p) + ": "@ + failure_detail(p, "tool error"@),
        FailureKind::Unknown => "Package "@ + pkg_ref(p) + " failed with an unknown error"@,
    }
}

fn failure_detail_of(p: &PackageReport, fallback: &str) -> (r: String)
    ensures
        r@ == failure_detail(*p, fallback@),
{
    if let Some(e) = &p.engine {
        let t = trim_str(e.stderr.as_str());
        if t.as_str().unicode_len() > 0 {
            return t;
        }
    }
    match &p.skip_reason {
        Some(r) => r.clone(),
        None => owned(fallback),
    }
}

fn push_pkg_ref(s: &mut String, p: &PackageReport)
    ensures
        final(s)@ == old(s)@ + pkg_ref(*p),
{
    push_str(s, "`");
    push_str(s, p.name.as_str());
    push_str(s, "` (v");
    push_str(s, p.version.as_str());
    push_str(s, ")");
    assert(final(s)@ =~= old(s)@ + pkg_ref(*p));
}

/// The message of a package finding.
pub fn build_failure_message(p: &PackageReport, kind: FailureKind) -> (r: String)
    ensures
        r@ == spec_failure_message(*p, kind),
{
    match kind {
        FailureKind::SemverViolation => match p.inferred_required_bump {
            Some(b) => {
                let mut s = owned("Package ");
                push_pkg_ref(&mut s, p);
                push_str(&mut s, " requires a ");
                push_str(&mut s, required_bump_str(b));
                push_str(&mut s, " version bump");
                s
            },
            None => {
                let mut s = owned("Package ");
                push_pkg_ref(&mut s, p);
                push_str(&mut s, " failed semantic versioning checks");
                s
            },
        },
        FailureKind::BaselineError => {
            let mut s = owned("Baseline error for ");
            push_pkg_ref(&mut s, p);
            push_str(&mut s, ": ");
            let d = failure_detail_of(p, "baseline error");
            push_str(&mut s, d.as_str());
            s
        },
        FailureKind::ToolError => {
            let mut s = owned("Tool error for ");
            push_pkg_ref(&mut s, p);
            push_str(&mut s, ": ");
            let d = failure_detail_of(p, "tool error");
            push_str(&mut s, d.as_str());
            s
        },
        FailureKind::Unknown => {
            let mut s = owned("Package ");
            push_pkg_ref(&mut s, p);
            push_str(&mut s, " failed with an unknown error");
            s
        },
    }
}

/// The raw logs recorded for a package: the last reference with its name and version.
pub open spec fn raw_lookup(
    raws: Seq<(Seq<char>, Seq<char>, Option<Seq<char>>, Option<Seq<char>>)>,
    name: Seq<char>,
    version: Seq<char>,
) -> Option<(Option<Seq<char>>, Option<Seq<char>>)>
    decreases raws.len(),
{
    if raws.len() == 0 {
        None
    } else if raws.last().0 == name && raws.last().1 == version {
        Some((raws.last().2, raws.last().3))
    } else {
        raw_lookup(raws.drop_last(), name, version)
    }
}

/// The raw log a finding points to: stderr, else stdout.
pub open spec fn finding_raw_log(
    raws: Seq<(Seq<char>, Seq<char>, Option<Seq<char>>, Option<Seq<char>>)>,
    name: Seq<char>,
    version: Seq<char>,
) -> Option<Seq<char>> {
    match raw_lookup(raws, name, version) {
        Some((o, e)) => match e {
            Some(x) => Some(x),
            None => o,
        },
        None => None,
    }
}

pub fn raw_log_for(raws: &Vec<RawLogRef>, name: &String, version: &String) -> (r: Option<String>)
    ensures
        os(r) == finding_raw_log(raws_view(raws@), name@, version@),
{
    let ghost rv = raws_view(raws@);
    let mut k: usize = raws.len();
    assert(rv.take(k as int) =~= rv);
    while k > 0
        invariant
            k <= raws.len(),
            rv == raws_view(raws@),
            raw_lookup(rv, name@, version@) == raw_lookup(rv.take(k as int), name@, version@),
        decreases k,
    {
        let r = &raws[k - 1];
        assert(rv.take(k as int).last() == (r.package@, r.version@, os(r.stdout), os(r.stderr)));
        assert(rv.take(k as int).drop_last() =~= rv.take(k - 1));
        if str_eq(r.package.as_str(), name.as_str()) && str_eq(r.version.as_str(), version.as_str()) {
            return match &r.stderr {
                Some(e) => Some(e.clone()),
                None => match &r.stdout {
                    Some(o) => Some(o.clone()),
                    None => None,
                },
            };
        }
        k -= 1;
    }
    None
}

/// Check id, code and level of a failure kind.
pub open spec fn check_of(kind: FailureKind) -> (Seq<char>, Seq<char>, FindingLevel) {
    match kind {
        FailureKind::SemverViolation => ("semver"@, "violation"@, FindingLevel::Error),
        FailureKind::BaselineError => ("baseline"@, "missing"@, FindingLevel::Warning),
        FailureKind::ToolError => ("tool.runtime"@, "runtime_error"@, FindingLevel::Error),
        FailureKind::Unknown => ("engine"@, "unknown"@, FindingLevel::Error),
    }
}

/// A failure kind, a missing one read as unknown.
pub open spec fn kind_or_unknown(k: Option<FailureKind>) -> FailureKind {
    match k {
        Some(x) => x,
        None => FailureKind::Unknown,
    }
}

/// The finding of a failed package.
pub open spec fn spec_package_finding(
    p: PackageReport,
    root: Seq<char>,
    raws: Seq<(Seq<char>, Seq<char>, Option<Seq<char>>, Option<Seq<char>>)>,
) -> FindingView {
    let kind = kind_or_unknown(p.failure_kind);
    let (check, code, level) = check_of(kind);
    let mp = spec_normalize_receipt_path(root, p.manifest_path@);
    FindingView {
        check_id: check,
        code,
        level,
        message: spec_failure_message(p, kind),
        location: Some(
            LocationView { path: Some(mp), line: None, column: None, raw_log: finding_raw_log(raws, p.name@, p.version@) },
        ),
        data: Some(
            DataView {
                package: p.name@,
                version: p.version@,
                required_bump: match p.inferred_required_bump {
                    Some(b) => Some(bump_text(b)),
                    None => None,
                },
                failure_kind: kind_text(kind),
                manifest_path: mp,
                suggested_version: match p.inferred_required_bump {
                    Some(b) => spec_suggested_version(p.version@, b),
                    None => None,
                },
                baseline_error_cause: if kind == FailureKind::BaselineError {
                    p.baseline_error
                } else {
                    None
                },
            },
        ),
        fingerprint: Some(spec_fingerprint(check, code, p.name@, p.version@)),
        waived: None,
    }
}

/// Findings of the failed packages among `sorted`, in that order.
pub open spec fn spec_findings_of(
    sorted: Seq<PackageReport>,
    root: Seq<char>,
    raws: Seq<(Seq<char>, Seq<char>, Option<Seq<char>>, Option<Seq<char>>)>,
) -> Seq<FindingView>
    decreases sorted.len(),
{
    if sorted.len() == 0 {
        seq![]
    } else {
        let prev = spec_findings_of(sorted.drop_last(), root, raws);
        if sorted.last().status == PackageStatus::Failed {
            prev.push(spec_package_finding(sorted.last(), root, raws))
        } else {
            prev
        }
    }
}

/// The findings of a report: one per failed package, in name and version order.
pub open spec fn spec_build_findings(report: RunReport, artifacts: ArtifactIndex) -> Seq<FindingView> {
    spec_findings_of(sorted_packages(report.packages@), report.workspace_root@, raws_view(artifacts.raw_logs@))
}

fn package_finding(p: &PackageReport, root: &str, raws: &Vec<RawLogRef>) -> (r: Finding)
    ensures
        r@ == spec_package_finding(*p, root@, raws_view(raws@)),
{
    let kind = match p.failure_kind {
        Some(k) => k,
        None => FailureKind::Unknown,
    };
    proof {
        reveal_strlit("semver");
        reveal_strlit("violation");
        reveal_strlit("baseline");
        reveal_strlit("missing");
        reveal_strlit("tool.runtime");
        reveal_strlit("runtime_error");
        reveal_strlit("engine");
        reveal_strlit("unknown");
    }
    let (check_id, code, level) = match kind {
        FailureKind::SemverViolation => (CHECK_SEMVER, CODE_VIOLATION, FindingLevel::Error),
        FailureKind::BaselineError => (CHECK_BASELINE, CODE_MISSING, FindingLevel::Warning),
        FailureKind::ToolError => (CHECK_TOOL, CODE_ERROR, FindingLevel::Error),
        FailureKind::Unknown => (CHECK_ENGINE, CODE_UNKNOWN, FindingLevel::Error),
    };
    let message = build_failure_message(p, kind);
    let raw_log = raw_log_for(raws, &p.name, &p.version);
    let mp = normalize_receipt_path(root, p.manifest_path.as_str());
    let suggested_version = match p.inferred_required_bump {
        Some(b) => compute_suggested_version(p.version.as_str(), b),
        None => None,
    };
    let baseline_error_cause = if kind == FailureKind::BaselineError {
        match &p.baseline_error {
            Some(c) => Some(c.clone()),
            None => None,
        }
    } else {
        None
    };
    let required_bump = match p.inferred_required_bump {
        Some(b) => Some(owned(required_bump_str(b))),
        None => None,
    };
    let data = FindingData {
        package: p.name.clone(),
        version: p.version.clone(),
        required_bump,
        failure_kind: owned(failure_kind_str(kind)),
        manifest_path: mp.clone(),
        suggested_version,
        baseline_error_cause,
    };
    let fingerprint = compute_fingerprint(check_id, code, p.name.as_str(), p.version.as_str());
    Finding {
        check_id: owned(check_id),
        code: owned(code),
        level,
        message,
        location: Some(FindingLocation { path: Some(mp), line: None, column: None, raw_log }),
        data: Some(data),
        fingerprint: Some(fingerprint),
        waived: None,
    }
}

/// The findings of a report: one per failed package, in name and version order
/// (input order among equals). Manifest paths are made relative to the report's
/// workspace root; raw logs come from the artifact index. The `workspace_root`
/// argument is not read.
pub fn build_findings(report: &RunReport, artifacts: &ArtifactIndex, workspace_root: &str) -> (r: Vec<Finding>)
    ensures
        findings_view(r@) == spec_build_findings(*report, *artifacts),
{
    let keys = package_sort_keys(&report.packages);
    let order = sort_order(&keys);
    let ghost sorted = sorted_packages(report.packages@);
    let ghost root = report.workspace_root@;
    let ghost raws = raws_view(artifacts.raw_logs@);
    let mut out: Vec<Finding> = Vec::new();
    let mut k: usize = 0;
    while k < order.len()
        invariant
            k <= order.len(),
            order@ == sorted_positions(pkg_keys(report.packages@)),
            order.len() == report.packages.len(),
            forall|i: int| 0 <= i < order.len() ==> #[trigger] order@[i] < report.packages.len(),
            sorted == sorted_packages(report.packages@),
            root == report.workspace_root@,
            raws == raws_view(artifacts.raw_logs@),
            findings_view(out@) == spec_findings_of(sorted.take(k as int), root, raws),
        decreases order.len() - k,
    {
        let pkg = &report.packages[order[k]];
        assert(sorted.take(k + 1).drop_last() =~= sorted.take(k as int));
        assert(sorted.take(k + 1).last() == *pkg);
        if pkg.status == PackageStatus::Failed {
            let f = package_finding(pkg, report.workspace_root.as_str(), &artifacts.raw_logs);
            let ghost before = findings_view(out@);
            out.push(f);
            assert(findings_view(out@) =~= before.push(out@[out@.len() - 1]@));
        }
        k += 1;
    }
    assert(sorted.take(order.len() as int) =~= sorted);
    out
}

} // verus!
