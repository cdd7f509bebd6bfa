//! SARIF 2.1.0 reports of a run or a receipt.
//!
//! Locations always point to the package manifest: engines do not say where in the
//! sources a violation is, so no region is ever written. Raw log references are
//! added to messages where they exist.
use vstd::prelude::*;
use crate::artifacts::forward_slashes;
use crate::classification::utf8_len;
use crate::comment::bump_debug;
use crate::findings::kind_text;
use crate::globs::strings_view;
use crate::model::{FailureKind, PackageReport, PackageStatus, RequiredBump, RunReport, VerdictStatus};
use crate::paths::{is_absolute, spec_join, join_path};
use crate::receipt::{Finding, FindingView, SensorReportV1, findings_view, os};
use crate::text::{chars_of, owned, push_char, push_str, spec_trim, string_from_chars, trim, str_eq};

verus! {

/// The SARIF schema.
pub const SARIF_SCHEMA: &'static str = "https://raw.githubusercontent.com/oasis-tcs/sarif-spec/master/Schemata/sarif-schema-2.1.0.json";
/// The SARIF version.
pub const SARIF_VERSION: &'static str = "2.1.0";
/// Rule of a breaking change without a known bump.
pub const RULE_SEMVER_BREAKING: &'static str = "semverguard/breaking-change";
/// Rule of a required major bump.
pub const RULE_SEMVER_MAJOR_REQUIRED: &'static str = "semverguard/major-bump-required";
/// Rule of a required minor bump.
pub const RULE_SEMVER_MINOR_REQUIRED: &'static str = "semverguard/minor-bump-required";
/// Rule of a required patch bump.
pub const RULE_SEMVER_PATCH_REQUIRED: &'static str = "semverguard/patch-bump-required";
/// Rule of a tool error.
pub const RULE_TOOL_ERROR: &'static str = "semverguard/tool-error";
/// Rule of a baseline error.
pub const RULE_BASELINE_ERROR: &'static str = "semverguard/baseline-error";

/// A SARIF log.
#[derive(Debug)]
pub struct SarifLog {
    /// Schema URI.
    pub schema: String,
    /// SARIF version.
    pub version: String,
    /// Runs.
    pub runs: Vec<SarifRun>,
}

/// One run of the tool.
#[derive(Debug)]
pub struct SarifRun {
    /// The tool.
    pub tool: SarifTool,
    /// Results.
    pub results: Vec<SarifResult>,
    /// Invocations.
    pub invocations: Vec<SarifInvocation>,
}

/// The tool.
#[derive(Debug)]
pub struct SarifTool {
    /// Its driver.
    pub driver: SarifToolComponent,
}

/// A tool component.
#[derive(Debug)]
pub struct SarifToolComponent {
    /// Name.
    pub name: String,
    /// Version.
    pub semantic_version: Option<String>,
    /// Name and version.
    pub full_name: Option<String>,
    /// Project URI.
    pub information_uri: Option<String>,
    /// Rules.
    pub rules: Vec<SarifRule>,
}

/// A rule.
#[derive(Debug)]
pub struct SarifRule {
    /// Stable id.
    pub id: String,
    /// Short description.
    pub short_description: Option<SarifMessage>,
    /// Full description.
    pub full_description: Option<SarifMessage>,
    /// Help.
    pub help: Option<SarifMessage>,
    /// Help URI.
    pub help_uri: Option<String>,
    /// Default configuration.
    pub default_configuration: Option<SarifRuleConfiguration>,
}

/// Default configuration of a rule.
#[derive(Debug)]
pub struct SarifRuleConfiguration {
    /// Severity.
    pub level: SarifLevel,
}

/// Severity of a result.
#[derive(Debug, Clone, Copy, PartialEq, Eq, Structural)]
pub enum SarifLevel {
    /// A serious problem.
    Error,
    /// A potential problem.
    Warning,
    /// Information.
    Note,
    /// No level (`none` in SARIF).
    Unset,
}

/// A message.
#[derive(Debug)]
pub struct SarifMessage {
    /// Text.
    pub text: String,
    /// Markdown text.
    pub markdown: Option<String>,
}

/// One result.
#[derive(Debug)]
pub struct SarifResult {
    /// Rule.
    pub rule_id: String,
    /// Severity.
    pub level: SarifLevel,
    /// Message.
    pub message: SarifMessage,
    /// Locations.
    pub locations: Vec<SarifLocation>,
    /// Extra properties.
    pub properties: Option<SarifResultProperties>,
}

/// A location.
#[derive(Debug)]
pub struct SarifLocation {
    /// Where in which file.
    pub physical_location: SarifPhysicalLocation,
}

/// A place in a file.
#[derive(Debug)]
pub struct SarifPhysicalLocation {
    /// The file.
    pub artifact_location: SarifArtifactLocation,
    /// The region (never set).
    pub region: Option<SarifRegion>,
}

/// A file.
#[derive(Debug)]
pub struct SarifArtifactLocation {
    /// URI.
    pub uri: String,
    /// Base id of a relative URI.
    pub uri_base_id: Option<String>,
}

/// A region of a file.
#[derive(Debug)]
pub struct SarifRegion {
    /// First line.
    pub start_line: Option<u32>,
    /// First column.
    pub start_column: Option<u32>,
    /// Last line.
    pub end_line: Option<u32>,
    /// Last column.
    pub end_column: Option<u32>,
}

/// Extra properties of a result.
#[derive(Debug)]
pub struct SarifResultProperties {
    /// Package name.
    pub package_name: Option<String>,
    /// Package version.
    pub package_version: Option<String>,
    /// Required bump.
    pub required_bump: Option<String>,
    /// Duration.
    pub duration_ms: Option<u128>,
    /// Raw stderr log.
    pub raw_stderr_log: Option<String>,
    /// Raw stdout log.
    pub raw_stdout_log: Option<String>,
    /// Failure kind.
    pub failure_kind: Option<String>,
}

/// An invocation of the tool.
#[derive(Debug)]
pub struct SarifInvocation {
    /// Whether it succeeded.
    pub execution_successful: bool,
    /// Start time.
    pub start_time_utc: Option<String>,
    /// End time.
    pub end_time_utc: Option<String>,
    /// Working directory.
    pub working_directory: Option<SarifArtifactLocation>,
}

/// The view of a message: text and Markdown.
pub open spec fn msg_view(m: SarifMessage) -> (Seq<char>, Option<Seq<char>>) {
    (m.text@, os(m.markdown))
}

/// The view of an optional message.
pub open spec fn opt_msg_view(m: Option<SarifMessage>) -> Option<(Seq<char>, Option<Seq<char>>)> {
    match m {
        Some(x) => Some(msg_view(x)),
        None => None,
    }
}

/// The view of a rule: id, descriptions, help URI, default level.
pub open spec fn rule_view(r: SarifRule) -> (
    Seq<char>,
    Option<(Seq<char>, Option<Seq<char>>)>,
    Option<(Seq<char>, Option<Seq<char>>)>,
    Option<(Seq<char>, Option<Seq<char>>)>,
    Option<Seq<char>>,
    Option<SarifLevel>,
) {
    (
        r.id@,
        opt_msg_view(r.short_description),
        opt_msg_view(r.full_description),
        opt_msg_view(r.help),
        os(r.help_uri),
        match r.default_configuration {
            Some(c) => Some(c.level),
            None => None,
        },
    )
}

/// The view of a location: its URI, its base id, and whether it has a region.
pub open spec fn loc_view(l: SarifLocation) -> (Seq<char>, Option<Seq<char>>, bool) {
    (
        l.physical_location.artifact_location.uri@,
        os(l.physical_location.artifact_location.uri_base_id),
        l.physical_location.region is Some,
    )
}

/// The view of result properties.
pub open spec fn props_view(p: SarifResultProperties) -> (
    Option<Seq<char>>,
    Option<Seq<char>>,
    Option<Seq<char>>,
    Option<u128>,
    Option<Seq<char>>,
    Option<Seq<char>>,
    Option<Seq<char>>,
) {
    (
        os(p.package_name),
        os(p.package_version),
        os(p.required_bump),
        p.duration_ms,
        os(p.raw_stderr_log),
        os(p.raw_stdout_log),
        os(p.failure_kind),
    )
}

/// The mathematical view of a result.
pub struct ResultView {
    pub rule_id: Seq<char>,
    pub level: SarifLevel,
    pub message: (Seq<char>, Option<Seq<char>>),
    pub locations: Seq<(Seq<char>, Option<Seq<char>>, bool)>,
    pub properties: Option<
        (
            Option<Seq<char>>,
            Option<Seq<char>>,
            Option<Seq<char>>,
            Option<u128>,
            Option<Seq<char>>,
            Option<Seq<char>>,
            Option<Seq<char>>,
        ),
    >,
}

/// The view of a result.
pub open spec fn result_view(r: SarifResult) -> ResultView {
    ResultView {
        rule_id: r.rule_id@,
        level: r.level,
        message: msg_view(r.message),
        locations: r.locations@.map_values(|l: SarifLocation| loc_view(l)),
        properties: match r.properties {
            Some(p) => Some(props_view(p)),
            None => None,
        },
    }
}

/// The views of results.
pub open spec fn results_view(v: Seq<SarifResult>) -> Seq<ResultView> {
    v.map_values(|r: SarifResult| result_view(r))
}

/// A message with the given text and no Markdown.
pub fn text(s: &str) -> (r: SarifMessage)
    ensures
        msg_view(r) == (s@, None::<Seq<char>>),
{
    SarifMessage { text: owned(s), markdown: None }
}

impl SarifMessage {
    /// A message with the given text and no Markdown.
    pub fn text(s: &str) -> (r: SarifMessage)
        ensures
            msg_view(r) == (s@, None::<Seq<char>>),
    {
        text(s)
    }

    /// A message, with a pointer to the raw log appended when there is one.
    pub fn with_raw_log_ref(message: &str, raw_log: Option<&str>) -> (r: SarifMessage)
        ensures
            msg_view(r) == (spec_with_raw_log(message@, match raw_log {
                Some(l) => Some(l@),
                None => None,
            }), None::<Seq<char>>),
    {
        let mut t = owned(message);
        match raw_log {
            Some(p) => {
                push_str(&mut t, " (see raw log: ");
                push_str(&mut t, p);
                push_str(&mut t, ")");
            },
            None => {},
        }
        SarifMessage { text: t, markdown: None }
    }
}

/// A message text with a pointer to the raw log appended when there is one.
pub open spec fn spec_with_raw_log(message: Seq<char>, raw_log: Option<Seq<char>>) -> Seq<char> {
    match raw_log {
        Some(p) => message + " (see raw log: "@ + p + ")"@,
        None => message,
    }
}

/// The rule table: one rule per outcome, with its default severity.
pub open spec fn spec_rules() -> Seq<
    (
        Seq<char>,
        Option<(Seq<char>, Option<Seq<char>>)>,
        Option<(Seq<char>, Option<Seq<char>>)>,
        Option<(Seq<char>, Option<Seq<char>>)>,
        Option<Seq<char>>,
        Option<SarifLevel>,
    ),
> {
    seq![
        (
            "semverguard/breaking-change"@,
            Some(("Breaking API change detected"@, None)),
            Some(("A breaking change to the public API was detected that violates semantic versioning rules."@, None)),
            Some(("Review the changes and either revert the breaking change or bump the major version."@, None)),
            Some("https://semver.org/"@),
            Some(SarifLevel::Error),
        ),
        (
            "semverguard/major-bump-required"@,
            Some(("Major version bump required"@, None)),
            Some(("Breaking changes require a major version bump according to semantic versioning."@, None)),
            Some(("Increment the major version number (e.g., 1.0.0 -> 2.0.0)."@, None)),
            Some("https://semver.org/#spec-item-8"@),
            Some(SarifLevel::Error),
        ),
        (
            "semverguard/minor-bump-required"@,
            Some(("Minor version bump required"@, None)),
            Some(("New functionality requires a minor version bump according to semantic versioning."@, None)),
            Some(("Increment the minor version number (e.g., 1.0.0 -> 1.1.0)."@, None)),
            Some("https://semver.org/#spec-item-7"@),
            Some(SarifLevel::Warning),
        ),
        (
            "semverguard/patch-bump-required"@,
            Some(("Patch version bump required"@, None)),
            Some(("Bug fixes require a patch version bump according to semantic versioning."@, None)),
            Some(("Increment the patch version number (e.g., 1.0.0 -> 1.0.1)."@, None)),
            Some("https://semver.org/#spec-item-6"@),
            Some(SarifLevel::Note),
        ),
        (
            "semverguard/tool-error"@,
            Some(("Tool error during semver checks"@, None)),
            Some(("Semverguard encountered a tool or execution error while running checks."@, None)),
            Some(("Review engine logs and configuration, then retry the check."@, None)),
            None,
            Some(SarifLevel::Error),
        ),
        (
            "semverguard/baseline-error"@,
            Some(("Baseline error detected"@, None)),
            Some(("Semverguard could not resolve or access the requested baseline."@, None)),
            Some(("Verify the baseline reference and ensure required history is available."@, None)),
            None,
            Some(SarifLevel::Warning),
        ),
    ]
}

fn rule(id: &str, short: &str, full: &str, help: &str, help_uri: Option<&str>, level: SarifLevel) -> (r: SarifRule)
    ensures
        rule_view(r) == (id@, Some((short@, None::<Seq<char>>)), Some((full@, None::<Seq<char>>)), Some(
            (help@, None::<Seq<char>>),
        ), match help_uri {
            Some(u) => Some(u@),
            None => None,
        }, Some(level)),
{
    SarifRule {
        id: owned(id),
        short_description: Some(text(short)),
        full_description: Some(text(full)),
        help: Some(text(help)),
        help_uri: match help_uri {
            Some(u) => Some(owned(u)),
            None => None,
        },
        default_configuration: Some(SarifRuleConfiguration { level }),
    }
}

/// The SARIF rules of this tool.
pub fn generate_rules() -> (r: Vec<SarifRule>)
    ensures
        r@.map_values(|x: SarifRule| rule_view(x)) == spec_rules(),
{
    let mut v: Vec<SarifRule> = Vec::new();
    v.push(
        rule(
            "semverguard/breaking-change",
            "Breaking API change detected",
            "A breaking change to the public API was detected that violates semantic versioning rules.",
            "Review the changes and either revert the breaking change or bump the major version.",
            Some("https://semver.org/"),
            SarifLevel::Error,
        ),
    );
    v.push(
        rule(
            "semverguard/major-bump-required",
            "Major version bump required",
            "Breaking changes require a major version bump according to semantic versioning.",
            "Increment the major version number (e.g., 1.0.0 -> 2.0.0).",
            Some("https://semver.org/#spec-item-8"),
            SarifLevel::Error,
        ),
    );
    v.push(
        rule(
            "semverguard/minor-bump-required",
            "Minor version bump required",
            "New functionality requires a minor version bump according to semantic versioning.",
            "Increment the minor version number (e.g., 1.0.0 -> 1.1.0).",
            Some("https://semver.org/#spec-item-7"),
            SarifLevel::Warning,
        ),
    );
    v.push(
        rule(
            "semverguard/patch-bump-required",
            "Patch version bump required",
            "Bug fixes require a patch version bump according to semantic versioning.",
            "Increment the patch version number (e.g., 1.0.0 -> 1.0.1).",
            Some("https://semver.org/#spec-item-6"),
            SarifLevel::Note,
        ),
    );
    v.push(
        rule(
            "semverguard/tool-error",
            "Tool error during semver checks",
            "Semverguard encountered a tool or execution error while running checks.",
            "Review engine logs and configuration, then retry the check.",
            None,
            SarifLevel::Error,
        ),
    );
    v.push(
        rule(
            "semverguard/baseline-error",
            "Baseline error detected",
            "Semverguard could not resolve or access the requested baseline.",
            "Verify the baseline reference and ensure required history is available.",
            None,
            SarifLevel::Warning,
        ),
    );
    assert(v@.map_values(|x: SarifRule| rule_view(x)) =~= spec_rules());
    v
}

/// `s` with backslashes turned into forward slashes.
pub fn normalize_uri_str(s: &str) -> (r: String)
    ensures
        r@ == forward_slashes(s@),
{
    crate::artifacts::replace_backslashes(s)
}

/// The `file:` URI of a path, made absolute against `cwd` when relative (and left
/// relative when `cwd` is unknown). A Windows drive path `C:...` and a relative
/// path get `file:///`, an absolute Unix path gets `file://`.
pub open spec fn spec_path_to_uri(path: Seq<char>, cwd: Option<Seq<char>>) -> Seq<char> {
    let abs = if is_absolute(path) {
        path
    } else {
        match cwd {
            Some(c) => spec_join(c, path),
            None => path,
        }
    };
    let s = forward_slashes(abs);
    if s.len() >= 2 && s[1] == ':' {
        "file:///"@ + s
    } else if s.len() > 0 && s[0] == '/' {
        "file://"@ + s
    } else {
        "file:///"@ + s
    }
}

/// The `file:` URI of a path (see `spec_path_to_uri`).
pub fn path_to_uri(path: &str, cwd: Option<&str>) -> (r: String)
    ensures
        r@ == spec_path_to_uri(path@, match cwd {
            Some(c) => Some(c@),
            None => None,
        }),
{
    let pc = chars_of(path);
    let abs = if pc.len() > 0 && pc[0] == '/' {
        owned(path)
    } else {
        match cwd {
            Some(c) => join_path(c, path),
            None => owned(path),
        }
    };
    let s = normalize_uri_str(abs.as_str());
    let sc = chars_of(s.as_str());
    proof {
        reveal_strlit("file:///");
        reveal_strlit("file://");
    }
    let mut out = if sc.len() >= 2 && sc[1] == ':' {
        owned("file:///")
    } else if sc.len() > 0 && sc[0] == '/' {
        owned("file://")
    } else {
        owned("file:///")
    };
    push_str(&mut out, s.as_str());
    out
}

/// How many leading characters of `t`, from position `i` on with `used` bytes
/// already taken, fit in `n` bytes of UTF-8: the position where they stop.
pub open spec fn prefix_fit(t: Seq<char>, i: int, used: int, n: int) -> int
    decreases t.len() - i,
{
    if i < 0 || i >= t.len() || used + crate::classification::char_utf8_len(t[i]) > n {
        i
    } else {
        prefix_fit(t, i + 1, used + crate::classification::char_utf8_len(t[i]), n)
    }
}

/// The characters of the first 200 bytes of `t`.
pub open spec fn head_200(t: Seq<char>) -> Seq<char> {
    t.take(prefix_fit(t, 0, 0, 200))
}

/// Whether the engine output of a package can be cut at 200 bytes: it is no longer
/// than that, or byte 200 falls between two characters.
pub open spec fn snippet_cut_ok(p: PackageReport) -> bool {
    match p.engine {
        Some(e) => {
            let t = spec_trim(e.stderr@);
            utf8_len(t) <= 200 || utf8_len(head_200(t)) == 200
        },
        None => true,
    }
}

/// The engine output quoted in a result: the trimmed stderr, cut to 200 bytes
/// followed by `...` when longer; nothing when empty.
pub open spec fn spec_snippet(p: PackageReport) -> Option<Seq<char>> {
    match p.engine {
        Some(e) => {
            let t = spec_trim(e.stderr@);
            if t.len() == 0 {
                None
            } else if utf8_len(t) > 200 {
                Some(head_200(t) + "..."@)
            } else {
                Some(t)
            }
        },
        None => None,
    }
}

fn snippet_of(p: &PackageReport) -> (r: Option<String>)
    requires
        snippet_cut_ok(*p),
    ensures
        os(r) == spec_snippet(*p),
{
    match &p.engine {
        None => None,
        Some(e) => {
            let full = chars_of(e.stderr.as_str());
            let t = trim(&full);
            if t.len() == 0 {
                return None;
            }
            if crate::classification::utf8_len_below(&t, 201) {
                return Some(string_from_chars(&t));
            }
            let mut i: usize = 0;
            let mut used: usize = 0;
            let mut stop = false;
            assert(t@.take(0) =~= seq![]);
            while i < t.len() && !stop
                invariant
                    i <= t.len(),
                    used == utf8_len(t@.take(i as int)),
                    used <= 200,
                    prefix_fit(t@, 0, 0, 200) == if stop {
                        i as int
                    } else {
                        prefix_fit(t@, i as int, used as int, 200)
                    },
                    stop ==> used + crate::classification::char_utf8_len(t@[i as int]) > 200 && i < t.len(),
                decreases t.len() - i, if stop { 0int } else { 1int },
            {
                let c = t[i] as u32;
                let w: usize = if c < 0x80 {
                    1
                } else if c < 0x800 {
                    2
                } else if c < 0x10000 {
                    3
                } else {
                    4
                };
                assert(w == crate::classification::char_utf8_len(t@[i as int]));
                if used + w > 200 {
                    stop = true;
                } else {
                    assert(t@.take(i + 1).drop_last() =~= t@.take(i as int));
                    used = used + w;
                    i += 1;
                }
            }
            assert(prefix_fit(t@, 0, 0, 200) == i as int);
            let mut out: Vec<char> = Vec::new();
            let mut j: usize = 0;
            while j < i
                invariant
                    j <= i,
                    i <= t.len(),
                    out@ == t@.take(j as int),
                decreases i - j,
            {
                out.push(t[j]);
                assert(t@.take(j + 1) =~= t@.take(j as int).push(t@[j as int]));
                j += 1;
            }
            let mut s = string_from_chars(&out);
            push_str(&mut s, "...");
            Some(s)
        },
    }
}

/// The text of a package result before any engine output.
pub open spec fn package_message_text(p: PackageReport) -> Seq<char> {
    let r = "`"@ + p.name@ + "` (v"@ + p.version@ + ")"@;
    match crate::findings::kind_or_unknown(p.failure_kind) {
        FailureKind::BaselineError => "Baseline error while checking "@ + r,
        FailureKind::ToolError => "Tool error while checking "@ + r,
        _ => match p.inferred_required_bump {
            Some(RequiredBump::Major) => "Package "@ + r + " has breaking changes requiring a major version bump"@,
            Some(RequiredBump::Minor) => "Package "@ + r + " has new features requiring a minor version bump"@,
            Some(RequiredBump::Patch) => "Package "@ + r + " has changes requiring a patch version bump"@,
            _ => "Package "@ + r + " failed semantic versioning check"@,
        },
    }
}

/// Rule and level of a package result.
pub open spec fn package_rule(p: PackageReport) -> (Seq<char>, SarifLevel) {
    match crate::findings::kind_or_unknown(p.failure_kind) {
        FailureKind::BaselineError => ("semverguard/baseline-error"@, SarifLevel::Warning),
        FailureKind::ToolError => ("semverguard/tool-error"@, SarifLevel::Error),
        _ => match p.inferred_required_bump {
            Some(RequiredBump::Major) => ("semverguard/major-bump-required"@, SarifLevel::Error),
            Some(RequiredBump::Minor) => ("semverguard/minor-bump-required"@, SarifLevel::Warning),
            Some(RequiredBump::Patch) => ("semverguard/patch-bump-required"@, SarifLevel::Note),
            _ => ("semverguard/breaking-change"@, SarifLevel::Error),
        },
    }
}

/// The result of a failed package: its rule, its message (with the engine output
/// when there is one), the manifest as the only location, and its properties.
pub open spec fn spec_package_result(p: PackageReport, cwd: Option<Seq<char>>) -> ResultView {
    let (rule_id, level) = package_rule(p);
    let base = package_message_text(p);
    ResultView {
        rule_id,
        level,
        message: (
            match spec_snippet(p) {
                Some(sn) => base + "\n\nEngine output: "@ + sn,
                None => base,
            },
            None,
        ),
        locations: seq![(spec_path_to_uri(p.manifest_path@, cwd), None, false)],
        properties: Some(
            (
                Some(p.name@),
                Some(p.version@),
                match p.inferred_required_bump {
                    Some(b) => Some(bump_debug(b)),
                    None => None,
                },
                Some(p.duration_ms),
                match p.engine {
                    Some(_) => Some("Run with --format receipt to generate raw logs in artifacts/semverguard/raw/"@),
                    None => None,
                },
                None,
                Some(kind_text(crate::findings::kind_or_unknown(p.failure_kind))),
            ),
        ),
    }
}

/// The result of a failed package (see `spec_package_result`). `cwd` makes a
/// relative manifest path absolute.
pub fn package_to_sarif_result(pkg: &PackageReport, cwd: Option<&str>) -> (r: SarifResult)
    requires
        snippet_cut_ok(*pkg),
    ensures
        result_view(r) == spec_package_result(*pkg, match cwd {
            Some(c) => Some(c@),
            None => None,
        }),
{
    let kind = match pkg.failure_kind {
        Some(k) => k,
        None => FailureKind::Unknown,
    };
    proof {
        reveal_strlit("semverguard/baseline-error");
        reveal_strlit("semverguard/tool-error");
        reveal_strlit("semverguard/major-bump-required");
        reveal_strlit("semverguard/minor-bump-required");
        reveal_strlit("semverguard/patch-bump-required");
        reveal_strlit("semverguard/breaking-change");
    }
    let (rule_id, level): (&str, SarifLevel) = match kind {
        FailureKind::BaselineError => (RULE_BASELINE_ERROR, SarifLevel::Warning),
        FailureKind::ToolError => (RULE_TOOL_ERROR, SarifLevel::Error),
        _ => match pkg.inferred_required_bump {
            Some(RequiredBump::Major) => (RULE_SEMVER_MAJOR_REQUIRED, SarifLevel::Error),
            Some(RequiredBump::Minor) => (RULE_SEMVER_MINOR_REQUIRED, SarifLevel::Warning),
            Some(RequiredBump::Patch) => (RULE_SEMVER_PATCH_REQUIRED, SarifLevel::Note),
            _ => (RULE_SEMVER_BREAKING, SarifLevel::Error),
        },
    };
    let mut pref = owned("`");
    push_str(&mut pref, pkg.name.as_str());
    push_str(&mut pref, "` (v");
    push_str(&mut pref, pkg.version.as_str());
    push_str(&mut pref, ")");
    let mut msg = match kind {
        FailureKind::BaselineError => owned("Baseline error while checking "),
        FailureKind::ToolError => owned("Tool error while checking "),
        _ => owned("Package "),
    };
    push_str(&mut msg, pref.as_str());
    match kind {
        FailureKind::BaselineError | FailureKind::ToolError => {},
        _ => match pkg.inferred_required_bump {
            Some(RequiredBump::Major) => push_str(&mut msg, " has breaking changes requiring a major version bump"),
            Some(RequiredBump::Minor) => push_str(&mut msg, " has new features requiring a minor version bump"),
            Some(RequiredBump::Patch) => push_str(&mut msg, " has changes requiring a patch version bump"),
            _ => push_str(&mut msg, " failed semantic versioning check"),
        },
    }
    assert(msg@ =~= package_message_text(*pkg));
    match snippet_of(pkg) {
        Some(sn) => {
            push_str(&mut msg, "\n\nEngine output: ");
            push_str(&mut msg, sn.as_str());
        },
        None => {},
    }
    let uri = path_to_uri(pkg.manifest_path.as_str(), cwd);
    let mut locations: Vec<SarifLocation> = Vec::new();
    locations.push(
        SarifLocation {
            physical_location: SarifPhysicalLocation {
                artifact_location: SarifArtifactLocation { uri, uri_base_id: None },
                region: None,
            },
        },
    );
    let props = SarifResultProperties {
        package_name: Some(pkg.name.clone()),
        package_version: Some(pkg.version.clone()),
        required_bump: match pkg.inferred_required_bump {
            Some(b) => Some(owned(crate::comment::bump_debug_str(b))),
            None => None,
        },
        duration_ms: Some(pkg.duration_ms),
        raw_stderr_log: match &pkg.engine {
            Some(_) => Some(owned("Run with --format receipt to generate raw logs in artifacts/semverguard/raw/")),
            None => None,
        },
        raw_stdout_log: None,
        failure_kind: Some(owned(crate::findings::failure_kind_str(kind))),
    };
    let r = SarifResult {
        rule_id: owned(rule_id),
        level,
        message: SarifMessage { text: msg, markdown: None },
        locations,
        properties: Some(props),
    };
    assert(r.locations@.map_values(|l: SarifLocation| loc_view(l)) =~= seq![
        (spec_path_to_uri(pkg.manifest_path@, match cwd {
            Some(c) => Some(c@),
            None => None,
        }), None::<Seq<char>>, false),
    ]);
    r
}

/// The results of the failed packages of a report, in report order.
pub open spec fn spec_report_results(pk: Seq<PackageReport>, cwd: Option<Seq<char>>) -> Seq<ResultView>
    decreases pk.len(),
{
    if pk.len() == 0 {
        seq![]
    } else {
        let prev = spec_report_results(pk.drop_last(), cwd);
        if pk.last().status == PackageStatus::Failed {
            prev.push(spec_package_result(pk.last(), cwd))
        } else {
            prev
        }
    }
}

/// Whether every failed package's engine output can be cut at 200 bytes.
pub open spec fn report_cut_ok(pk: Seq<PackageReport>) -> bool {
    forall|i: int| 0 <= i < pk.len() && (#[trigger] pk[i]).status == PackageStatus::Failed ==> snippet_cut_ok(pk[i])
}

/// The view of a working directory or other artifact location.
pub open spec fn art_view(a: Option<SarifArtifactLocation>) -> Option<(Seq<char>, Option<Seq<char>>)> {
    match a {
        Some(x) => Some((x.uri@, os(x.uri_base_id))),
        None => None,
    }
}

/// Whether a log has one run of this tool with the given driver, results and invocation.
pub open spec fn log_matches(
    log: SarifLog,
    name: Seq<char>,
    version: Seq<char>,
    information_uri: Option<Seq<char>>,
    results: Seq<ResultView>,
    successful: bool,
    start: Seq<char>,
    end: Seq<char>,
    working_directory: Seq<char>,
) -> bool {
    &&& log.schema@ == "https://raw.githubusercontent.com/oasis-tcs/sarif-spec/master/Schemata/sarif-schema-2.1.0.json"@
    &&& log.version@ == "2.1.0"@
    &&& log.runs@.len() == 1
    &&& log.runs@[0].tool.driver.name@ == name
    &&& os(log.runs@[0].tool.driver.semantic_version) == Some(version)
    &&& os(log.runs@[0].tool.driver.full_name) == Some(name + " "@ + version)
    &&& os(log.runs@[0].tool.driver.information_uri) == information_uri
    &&& log.runs@[0].tool.driver.rules@.map_values(|x: SarifRule| rule_view(x)) == spec_rules()
    &&& results_view(log.runs@[0].results@) == results
    &&& log.runs@[0].invocations@.len() == 1
    &&& log.runs@[0].invocations@[0].execution_successful == successful
    &&& os(log.runs@[0].invocations@[0].start_time_utc) == Some(start)
    &&& os(log.runs@[0].invocations@[0].end_time_utc) == Some(end)
    &&& art_view(log.runs@[0].invocations@[0].working_directory) == Some((working_directory, None::<Seq<char>>))
}

fn make_log(
    name: String,
    version: &String,
    information_uri: Option<String>,
    results: Vec<SarifResult>,
    successful: bool,
    start: &String,
    end: &String,
    working_directory: String,
) -> (r: SarifLog)
    ensures
        log_matches(
            r,
            name@,
            version@,
            os(information_uri),
            results_view(results@),
            successful,
            start@,
            end@,
            working_directory@,
        ),
{
    let mut full = name.clone();
    push_str(&mut full, " ");
    push_str(&mut full, version.as_str());
    let invocation = SarifInvocation {
        execution_successful: successful,
        start_time_utc: Some(start.clone()),
        end_time_utc: Some(end.clone()),
        working_directory: Some(SarifArtifactLocation { uri: working_directory, uri_base_id: None }),
    };
    let mut invocations: Vec<SarifInvocation> = Vec::new();
    invocations.push(invocation);
    let run = SarifRun {
        tool: SarifTool {
            driver: SarifToolComponent {
                name,
                semantic_version: Some(version.clone()),
                full_name: Some(full),
                information_uri,
                rules: generate_rules(),
            },
        },
        results,
        invocations,
    };
    let mut runs: Vec<SarifRun> = Vec::new();
    runs.push(run);
    proof {
        reveal_strlit("https://raw.githubusercontent.com/oasis-tcs/sarif-spec/master/Schemata/sarif-schema-2.1.0.json");
        reveal_strlit("2.1.0");
    }
    SarifLog { schema: owned(SARIF_SCHEMA), version: owned(SARIF_VERSION), runs }
}

/// The SARIF log of a run report: one result per failed package, in report
/// order; the invocation succeeded when nothing failed. `cwd` makes relative
/// paths absolute.
pub fn report_to_sarif(report: &RunReport, cwd: Option<&str>) -> (r: SarifLog)
    requires
        report_cut_ok(report.packages@),
    ensures
        log_matches(
            r,
            "semverguard"@,
            report.semverguard_version@,
            None,
            spec_report_results(report.packages@, match cwd {
                Some(c) => Some(c@),
                None => None,
            }),
            report.summary.spec_overall_success(),
            report.started_at@,
            report.finished_at@,
            spec_path_to_uri(report.workspace_root@, match cwd {
                Some(c) => Some(c@),
                None => None,
            }),
        ),
{
    let ghost cv = match cwd {
        Some(c) => Some(c@),
        None => None,
    };
    let mut results: Vec<SarifResult> = Vec::new();
    let mut i: usize = 0;
    while i < report.packages.len()
        invariant
            i <= report.packages.len(),
            report_cut_ok(report.packages@),
            cv == match cwd {
                Some(c) => Some(c@),
                None => None::<Seq<char>>,
            },
            results_view(results@) == spec_report_results(report.packages@.take(i as int), cv),
        decreases report.packages.len() - i,
    {
        let p = &report.packages[i];
        assert(report.packages@.take(i + 1).drop_last() =~= report.packages@.take(i as int));
        assert(report.packages@.take(i + 1).last() == *p);
        if p.status == PackageStatus::Failed {
            let res = package_to_sarif_result(p, cwd);
            let ghost before = results_view(results@);
            results.push(res);
            assert(results_view(results@) =~= before.push(spec_package_result(*p, cv)));
        }
        i += 1;
    }
    assert(report.packages@.take(report.packages.len() as int) =~= report.packages@);
    let wd = path_to_uri(report.workspace_root.as_str(), cwd);
    proof {
        reveal_strlit("semverguard");
    }
    make_log(
        owned("semverguard"),
        &report.semverguard_version,
        None,
        results,
        report.summary.overall_success(),
        &report.started_at,
        &report.finished_at,
        wd,
    )
}

/// Rule and level of a receipt finding: by check id, and for SemVer findings by
/// the required bump in their data.
pub open spec fn finding_rule(f: FindingView) -> (Seq<char>, SarifLevel) {
    if f.check_id == "baseline"@ {
        ("semverguard/baseline-error"@, SarifLevel::Warning)
    } else if f.check_id == "tool"@ {
        ("semverguard/tool-error"@, SarifLevel::Error)
    } else if f.check_id == "semver"@ {
        match f.data {
            Some(d) => match d.required_bump {
                Some(b) => if b == "major"@ {
                    ("semverguard/major-bump-required"@, SarifLevel::Error)
                } else if b == "minor"@ {
                    ("semverguard/minor-bump-required"@, SarifLevel::Warning)
                } else if b == "patch"@ {
                    ("semverguard/patch-bump-required"@, SarifLevel::Note)
                } else {
                    ("semverguard/breaking-change"@, SarifLevel::Error)
                },
                None => ("semverguard/breaking-change"@, SarifLevel::Error),
            },
            None => ("semverguard/breaking-change"@, SarifLevel::Error),
        }
    } else {
        ("semverguard/breaking-change"@, SarifLevel::Error)
    }
}

/// The result of a receipt finding: its rule, its message with the raw log
/// reference, the manifest (else the raw log) as location, and its data as
/// properties.
pub open spec fn spec_finding_result(f: FindingView) -> ResultView {
    let (rule_id, level) = finding_rule(f);
    let raw = match f.location {
        Some(l) => l.raw_log,
        None => None,
    };
    ResultView {
        rule_id,
        level,
        message: (spec_with_raw_log(f.message, raw), None),
        locations: match f.location {
            Some(l) => match l.path {
                Some(p) => seq![(forward_slashes(p), None, false)],
                None => match l.raw_log {
                    Some(p) => seq![(forward_slashes(p), None, false)],
                    None => seq![],
                },
            },
            None => seq![],
        },
        properties: match f.data {
            Some(d) => Some((Some(d.package), Some(d.version), d.required_bump, None, raw, None, Some(d.failure_kind))),
            None => None,
        },
    }
}

fn opt_clone(o: &Option<String>) -> (r: Option<String>)
    ensures
        os(r) == os(*o),
{
    match o {
        Some(s) => Some(s.clone()),
        None => None,
    }
}

/// The result of a receipt finding (see `spec_finding_result`).
pub fn finding_to_sarif_result(finding: &Finding) -> (r: SarifResult)
    ensures
        result_view(r) == spec_finding_result(finding@),
{
    proof {
        reveal_strlit("baseline");
        reveal_strlit("tool");
        reveal_strlit("semver");
        reveal_strlit("major");
        reveal_strlit("minor");
        reveal_strlit("patch");
        reveal_strlit("semverguard/baseline-error");
        reveal_strlit("semverguard/tool-error");
        reveal_strlit("semverguard/major-bump-required");
        reveal_strlit("semverguard/minor-bump-required");
        reveal_strlit("semverguard/patch-bump-required");
        reveal_strlit("semverguard/breaking-change");
    }
    let c = finding.check_id.as_str();
    let (rule_id, level): (&str, SarifLevel) = if str_eq(c, "baseline") {
        (RULE_BASELINE_ERROR, SarifLevel::Warning)
    } else if str_eq(c, "tool") {
        (RULE_TOOL_ERROR, SarifLevel::Error)
    } else if str_eq(c, "semver") {
        match &finding.data {
            Some(d) => match &d.required_bump {
                Some(b) => if str_eq(b.as_str(), "major") {
                    (RULE_SEMVER_MAJOR_REQUIRED, SarifLevel::Error)
                } else if str_eq(b.as_str(), "minor") {
                    (RULE_SEMVER_MINOR_REQUIRED, SarifLevel::Warning)
                } else if str_eq(b.as_str(), "patch") {
                    (RULE_SEMVER_PATCH_REQUIRED, SarifLevel::Note)
                } else {
                    (RULE_SEMVER_BREAKING, SarifLevel::Error)
                },
                None => (RULE_SEMVER_BREAKING, SarifLevel::Error),
            },
            None => (RULE_SEMVER_BREAKING, SarifLevel::Error),
        }
    } else {
        (RULE_SEMVER_BREAKING, SarifLevel::Error)
    };
    let raw: Option<String> = match &finding.location {
        Some(l) => opt_clone(&l.raw_log),
        None => None,
    };
    let mut locations: Vec<SarifLocation> = Vec::new();
    match &finding.location {
        Some(l) => {
            let uri = match &l.path {
                Some(p) => Some(normalize_uri_str(p.as_str())),
                None => match &l.raw_log {
                    Some(p) => Some(normalize_uri_str(p.as_str())),
                    None => None,
                },
            };
            match uri {
                Some(u) => locations.push(
                    SarifLocation {
                        physical_location: SarifPhysicalLocation {
                            artifact_location: SarifArtifactLocation { uri: u, uri_base_id: None },
                            region: None,
                        },
                    },
                ),
                None => {},
            }
        },
        None => {},
    }
    let properties = match &finding.data {
        Some(d) => Some(
            SarifResultProperties {
                package_name: Some(d.package.clone()),
                package_version: Some(d.version.clone()),
                required_bump: opt_clone(&d.required_bump),
                duration_ms: None,
                raw_stderr_log: opt_clone(&raw),
                raw_stdout_log: None,
                failure_kind: Some(d.failure_kind.clone()),
            },
        ),
        None => None,
    };
    let message = match &raw {
        Some(p) => SarifMessage::with_raw_log_ref(finding.message.as_str(), Some(p.as_str())),
        None => SarifMessage::with_raw_log_ref(finding.message.as_str(), None),
    };
    let r = SarifResult { rule_id: owned(rule_id), level, message, locations, properties };
    assert(r.locations@.map_values(|l: SarifLocation| loc_view(l)) =~= spec_finding_result(finding@).locations);
    r
}

/// The SARIF log of a receipt: one result per finding, in receipt order; the
/// invocation succeeded when the verdict is a pass.
pub fn receipt_to_sarif(receipt: &SensorReportV1) -> (r: SarifLog)
    ensures
        log_matches(
            r,
            receipt.tool.name@,
            receipt.tool.version@,
            os(receipt.tool.repository_url),
            findings_view(receipt.findings@).map_values(|f: FindingView| spec_finding_result(f)),
            receipt.verdict.status == VerdictStatus::Pass,
            receipt.run.started_at@,
            receipt.run.finished_at@,
            forward_slashes(receipt.run.workspace_root@),
        ),
{
    let ghost fv = findings_view(receipt.findings@);
    let mut results: Vec<SarifResult> = Vec::new();
    let mut i: usize = 0;
    while i < receipt.findings.len()
        invariant
            i <= receipt.findings.len(),
            fv == findings_view(receipt.findings@),
            results_view(results@) == fv.map_values(|f: FindingView| spec_finding_result(f)).take(i as int),
        decreases receipt.findings.len() - i,
    {
        let res = finding_to_sarif_result(&receipt.findings[i]);
        let ghost before = results_view(results@);
        results.push(res);
        assert(results_view(results@) =~= before.push(spec_finding_result(fv[i as int])));
        assert(fv.map_values(|f: FindingView| spec_finding_result(f)).take(i + 1) =~= fv.map_values(
            |f: FindingView| spec_finding_result(f),
        ).take(i as int).push(spec_finding_result(fv[i as int])));
        i += 1;
    }
    assert(fv.map_values(|f: FindingView| spec_finding_result(f)).take(receipt.findings.len() as int)
        =~= fv.map_values(|f: FindingView| spec_finding_result(f)));
    let wd = normalize_uri_str(receipt.run.workspace_root.as_str());
    let successful = match receipt.verdict.status {
        VerdictStatus::Pass => true,
        _ => false,
    };
    make_log(
        receipt.tool.name.clone(),
        &receipt.tool.version,
        opt_clone(&receipt.tool.repository_url),
        results,
        successful,
        &receipt.run.started_at,
        &receipt.run.finished_at,
        wd,
    )
}

} // verus!
