//! Semantic validation of a configuration.
use vstd::prelude::*;
use crate::globs::{check_glob, glob_new_error, strings_view};
use crate::model::{BaselineKind, ScopeMode, SemverguardConfig, WaiverEntry};
use crate::receipt::os;
use crate::text::{chars_of, nat_decimal, owned, push_str, spec_trim, trim, usize_decimal};
use crate::waivers::{spec_is_waiver_expired, is_waiver_expired, today_utc};

verus! {

/// A TOML value (`toml`).
#[verifier::external_type_specification]
#[verifier::external_body]
pub struct ExTomlValue(toml::Value);

/// The key paths of a TOML value: every table entry reachable from it through tables.
pub uninterp spec fn toml_value_paths(v: toml::Value) -> Set<Seq<Seq<char>>>;

/// What `toml::from_str::<toml::Value>` makes of a text: the key paths of the value,
/// or nothing when the text does not parse.
pub uninterp spec fn toml_value_parse(text: Seq<char>) -> Option<Set<Seq<Seq<char>>>>;

/// `toml::from_str::<toml::Value>`, the error dropped.
#[verifier::external_body]
fn parse_toml_value(text: &str) -> (r: Option<toml::Value>)
    ensures
        match r {
            Some(v) => toml_value_parse(text@) == Some(toml_value_paths(v)),
            None => toml_value_parse(text@) is None,
        },
{
    toml::from_str::<toml::Value>(text).ok()
}

/// `Value::get`: whether the value is a table with an entry `key`.
#[verifier::external_body]
fn value_has(v: &toml::Value, key: &str) -> (r: bool)
    ensures
        r == toml_value_paths(*v).contains(seq![key@]),
{
    v.get(key).is_some()
}

/// `Value::get` of `sub` in the entry `key`: whether that entry is a table with an
/// entry `sub`.
#[verifier::external_body]
fn value_child_has(v: &toml::Value, key: &str, sub: &str) -> (r: bool)
    requires
        toml_value_paths(*v).contains(seq![key@]),
    ensures
        r == toml_value_paths(*v).contains(seq![key@, sub@]),
{
    v[key].get(sub).is_some()
}

/// Whether a configuration text sets `scope.mode` itself: it parses as TOML and its
/// `scope` table has a `mode` entry.
pub fn config_text_sets_scope_mode(raw: &str) -> (r: bool)
    ensures
        r == match toml_value_parse(raw@) {
            Some(ps) => ps.contains(seq!["scope"@]) && ps.contains(seq!["scope"@, "mode"@]),
            None => false,
        },
{
    match parse_toml_value(raw) {
        None => false,
        Some(v) => value_has(&v, "scope") && value_child_has(&v, "scope", "mode"),
    }
}

/// Diagnostics of a configuration.
pub struct ValidationResult {
    /// Problems that fail the check.
    pub errors: Vec<String>,
    /// Problems worth a look.
    pub warnings: Vec<String>,
}

impl ValidationResult {
    /// No diagnostics yet.
    pub fn new() -> (r: Self)
        ensures
            r.errors@.len() == 0,
            r.warnings@.len() == 0,
    {
        ValidationResult { errors: Vec::new(), warnings: Vec::new() }
    }

    /// Record an error.
    pub fn add_error(&mut self, msg: String)
        ensures
            final(self).errors@ == old(self).errors@.push(msg),
            final(self).warnings@ == old(self).warnings@,
    {
        self.errors.push(msg);
    }

    /// Record a warning.
    pub fn add_warning(&mut self, msg: String)
        ensures
            final(self).warnings@ == old(self).warnings@.push(msg),
            final(self).errors@ == old(self).errors@,
    {
        self.warnings.push(msg);
    }

    /// Whether there is neither an error nor a warning.
    pub fn is_clean(&self) -> (r: bool)
        ensures
            r == (self.errors@.len() == 0 && self.warnings@.len() == 0),
    {
        self.errors.len() == 0 && self.warnings.len() == 0
    }

    /// Whether there is an error.
    pub fn has_errors(&self) -> (r: bool)
        ensures
            r == (self.errors@.len() > 0),
    {
        self.errors.len() > 0
    }
}

/// What the file system says of the paths a configuration names.
pub struct PathFacts {
    /// `baseline.root` exists.
    pub root_exists: bool,
    /// `baseline.root` is a directory.
    pub root_is_dir: bool,
    /// `baseline.rustdoc` exists.
    pub rustdoc_exists: bool,
    /// `baseline.rustdoc` is a file.
    pub rustdoc_is_file: bool,
    /// `engine.cargo_bin` exists.
    pub cargo_bin_exists: bool,
}

/// Errors for the patterns of `scope.<field>` that `Glob::new` rejects, in order.
pub open spec fn glob_errors(pats: Seq<Seq<char>>, field: Seq<char>) -> Seq<Seq<char>>
    decreases pats.len(),
{
    if pats.len() == 0 {
        seq![]
    } else {
        let prev = glob_errors(pats.drop_last(), field);
        match glob_new_error(pats.last()) {
            Some(e) => prev.push(
                "Invalid glob in scope."@ + field + "["@ + nat_decimal((pats.len() - 1) as nat) + "] \""@
                    + pats.last() + "\": "@ + e,
            ),
            None => prev,
        }
    }
}

/// `t` when `b`.
pub open spec fn when(b: bool, t: Seq<char>) -> Seq<Seq<char>> {
    if b {
        seq![t]
    } else {
        seq![]
    }
}

/// Whether a character is an ASCII hexadecimal digit.
pub open spec fn is_hex(c: char) -> bool {
    ('0' <= c <= '9') || ('a' <= c <= 'f') || ('A' <= c <= 'F')
}

/// Whether a fingerprint is 64 hexadecimal digits.
pub open spec fn valid_fingerprint(f: Seq<char>) -> bool {
    f.len() == 64 && forall|i: int| 0 <= i < f.len() ==> is_hex(#[trigger] f[i])
}

/// Errors of the waivers, in order: a malformed fingerprint, an empty reason.
pub open spec fn waiver_errors(ws: Seq<WaiverEntry>) -> Seq<Seq<char>>
    decreases ws.len(),
{
    if ws.len() == 0 {
        seq![]
    } else {
        let w = ws.last();
        let i = nat_decimal((ws.len() - 1) as nat);
        waiver_errors(ws.drop_last()) + when(
            !valid_fingerprint(w.fingerprint@),
            "waivers["@ + i + "].fingerprint must be a 64-character hex string, got: "@ + w.fingerprint@,
        ) + when(spec_trim(w.reason@).len() == 0, "waivers["@ + i + "].reason must not be empty"@)
    }
}

/// Warnings of the waivers that have expired on `today`, in order.
pub open spec fn waiver_warnings(ws: Seq<WaiverEntry>, today: (i32, u8, u8)) -> Seq<Seq<char>>
    decreases ws.len(),
{
    if ws.len() == 0 {
        seq![]
    } else {
        let w = ws.last();
        waiver_warnings(ws.drop_last(), today) + match w.expires {
            Some(e) => when(
                spec_is_waiver_expired(os(w.expires), today),
                "waivers["@ + nat_decimal((ws.len() - 1) as nat) + "].expires ("@ + e@ + ") has already passed"@,
            ),
            None => seq![],
        }
    }
}

/// The errors of a configuration, in check order: bad globs, baseline and scope
/// inconsistencies, missing paths, bad waivers.
pub open spec fn spec_config_errors(c: SemverguardConfig, f: PathFacts) -> Seq<Seq<char>> {
    glob_errors(strings_view(c.scope.includes@), "include"@) + glob_errors(strings_view(c.scope.excludes@), "exclude"@)
        + when(
        c.baseline.kind == BaselineKind::Git && c.baseline.rev is None,
        "baseline.kind is \"git\" but baseline.rev is not set"@,
    ) + when(
        c.scope.mode == ScopeMode::Changed && c.baseline.kind != BaselineKind::Git,
        "scope.mode is \"changed\" requires baseline.kind = \"git\""@,
    ) + when(
        c.scope.mode == ScopeMode::Changed && c.baseline.rev is None,
        "scope.mode is \"changed\" requires baseline.rev to be set"@,
    ) + match c.baseline.root {
        Some(r) => if !f.root_exists {
            seq!["baseline.root does not exist: "@ + r@]
        } else if !f.root_is_dir {
            seq!["baseline.root is not a directory: "@ + r@]
        } else {
            seq![]
        },
        None => seq![],
    } + match c.baseline.rustdoc {
        Some(r) => if !f.rustdoc_exists {
            seq!["baseline.rustdoc does not exist: "@ + r@]
        } else if !f.rustdoc_is_file {
            seq!["baseline.rustdoc is not a file: "@ + r@]
        } else {
            seq![]
        },
        None => seq![],
    } + waiver_errors(c.waivers@)
}

/// The warnings of a configuration on `today`, in check order: ignored baseline
/// settings, a missing cargo binary, conflicting feature settings, expired waivers.
pub open spec fn spec_config_warnings(c: SemverguardConfig, f: PathFacts, today: (i32, u8, u8)) -> Seq<Seq<char>> {
    when(
        c.baseline.kind == BaselineKind::Git && c.baseline.version is Some,
        "baseline.version is set but baseline.kind is \"git\"; version will be ignored"@,
    ) + when(
        c.baseline.kind == BaselineKind::CratesIo && c.baseline.rev is Some,
        "baseline.rev is set but baseline.kind is \"crates-io\"; rev will be ignored"@,
    ) + match c.engine.cargo_bin {
        Some(b) => when(!f.cargo_bin_exists, "engine.cargo_bin does not exist: "@ + b@),
        None => seq![],
    } + when(
        c.features.all_features && c.features.only_explicit_features,
        "all_features and only_explicit_features both true; all_features takes precedence"@,
    ) + when(
        c.features.only_explicit_features && c.features.features@.len() == 0,
        "only_explicit_features is true but features list is empty"@,
    ) + waiver_warnings(c.waivers@, today)
}

fn push_if(v: &mut Vec<String>, b: bool, t: &str)
    ensures
        strings_view(final(v)@) == strings_view(old(v)@) + when(b, t@),
{
    let ghost before = strings_view(v@);
    if b {
        v.push(owned(t));
        assert(strings_view(v@) =~= before + seq![t@]);
    } else {
        assert(strings_view(v@) =~= before + seq![]);
    }
}

fn push_glob_errors(v: &mut Vec<String>, pats: &Vec<String>, field: &str)
    ensures
        strings_view(final(v)@) == strings_view(old(v)@) + glob_errors(strings_view(pats@), field@),
{
    let ghost pv = strings_view(pats@);
    let ghost before = strings_view(v@);
    let mut i: usize = 0;
    while i < pats.len()
        invariant
            i <= pats.len(),
            pv == strings_view(pats@),
            strings_view(v@) == before + glob_errors(pv.take(i as int), field@),
        decreases pats.len() - i,
    {
        let p = &pats[i];
        assert(pv.take(i + 1).drop_last() =~= pv.take(i as int));
        assert(pv.take(i + 1).last() == p@);
        match check_glob(p.as_str()) {
            Ok(_) => {},
            Err(e) => {
                let mut m = owned("Invalid glob in scope.");
                push_str(&mut m, field);
                push_str(&mut m, "[");
                push_str(&mut m, usize_decimal(i).as_str());
                push_str(&mut m, "] \"");
                push_str(&mut m, p.as_str());
                push_str(&mut m, "\": ");
                push_str(&mut m, e.as_str());
                let ghost mid = strings_view(v@);
                v.push(m);
                assert(strings_view(v@) =~= mid.push(m@));
            },
        }
        i += 1;
    }
    assert(pv.take(pats.len() as int) =~= pv);
}

fn hex_fingerprint(f: &str) -> (r: bool)
    ensures
        r == valid_fingerprint(f@),
{
    let cs = chars_of(f);
    if cs.len() != 64 {
        return false;
    }
    let mut i: usize = 0;
    while i < cs.len()
        invariant
            i <= cs.len(),
            cs@ == f@,
            forall|j: int| 0 <= j < i ==> is_hex(#[trigger] cs@[j]),
        decreases cs.len() - i,
    {
        let c = cs[i];
        if !(('0' <= c && c <= '9') || ('a' <= c && c <= 'f') || ('A' <= c && c <= 'F')) {
            return false;
        }
        i += 1;
    }
    true
}

/// The diagnostics of a configuration on date `today` (for waiver expiry), given
/// what the file system says of the paths it names.
pub fn validate_config_on(config: &SemverguardConfig, facts: &PathFacts, today: (i32, u8, u8)) -> (r:
    ValidationResult)
    ensures
        strings_view(r.errors@) == spec_config_errors(*config, *facts),
        strings_view(r.warnings@) == spec_config_warnings(*config, *facts, today),
{
    let mut errors: Vec<String> = Vec::new();
    let mut warnings: Vec<String> = Vec::new();
    assert(strings_view(errors@) =~= seq![]);
    assert(strings_view(warnings@) =~= seq![]);
    push_glob_errors(&mut errors, &config.scope.includes, "include");
    push_glob_errors(&mut errors, &config.scope.excludes, "exclude");
    let git = config.baseline.kind == BaselineKind::Git;
    push_if(&mut errors, git && config.baseline.rev.is_none(), "baseline.kind is \"git\" but baseline.rev is not set");
    push_if(
        &mut warnings,
        git && config.baseline.version.is_some(),
        "baseline.version is set but baseline.kind is \"git\"; version will be ignored",
    );
    push_if(
        &mut warnings,
        !git && config.baseline.rev.is_some(),
        "baseline.rev is set but baseline.kind is \"crates-io\"; rev will be ignored",
    );
    let changed = config.scope.mode == ScopeMode::Changed;
    push_if(&mut errors, changed && !git, "scope.mode is \"changed\" requires baseline.kind = \"git\"");
    push_if(&mut errors, changed && config.baseline.rev.is_none(), "scope.mode is \"changed\" requires baseline.rev to be set");
    let ghost e1 = strings_view(errors@);
    match &config.baseline.root {
        Some(r) => {
            if !facts.root_exists {
                let mut m = owned("baseline.root does not exist: ");
                push_str(&mut m, r.as_str());
                errors.push(m);
            } else if !facts.root_is_dir {
                let mut m = owned("baseline.root is not a directory: ");
                push_str(&mut m, r.as_str());
                errors.push(m);
            }
        },
        None => {},
    }
    let ghost e2 = strings_view(errors@);
    match &config.baseline.rustdoc {
        Some(r) => {
            if !facts.rustdoc_exists {
                let mut m = owned("baseline.rustdoc does not exist: ");
                push_str(&mut m, r.as_str());
                errors.push(m);
            } else if !facts.rustdoc_is_file {
                let mut m = owned("baseline.rustdoc is not a file: ");
                push_str(&mut m, r.as_str());
                errors.push(m);
            }
        },
        None => {},
    }
    let ghost e3 = strings_view(errors@);
    let ghost w1 = strings_view(warnings@);
    match &config.engine.cargo_bin {
        Some(b) => {
            if !facts.cargo_bin_exists {
                let mut m = owned("engine.cargo_bin does not exist: ");
                push_str(&mut m, b.as_str());
                warnings.push(m);
            }
        },
        None => {},
    }
    let ghost w2 = strings_view(warnings@);
    push_if(
        &mut warnings,
        config.features.all_features && config.features.only_explicit_features,
        "all_features and only_explicit_features both true; all_features takes precedence",
    );
    push_if(
        &mut warnings,
        config.features.only_explicit_features && config.features.features.len() == 0,
        "only_explicit_features is true but features list is empty",
    );
    let ghost e4 = strings_view(errors@);
    let ghost w3 = strings_view(warnings@);
    let ghost ws = config.waivers@;
    let mut i: usize = 0;
    while i < config.waivers.len()
        invariant
            i <= config.waivers.len(),
            ws == config.waivers@,
            strings_view(errors@) == e4 + waiver_errors(ws.take(i as int)),
            strings_view(warnings@) == w3 + waiver_warnings(ws.take(i as int), today),
        decreases config.waivers.len() - i,
    {
        let w = &config.waivers[i];
        assert(ws.take(i + 1).drop_last() =~= ws.take(i as int));
        assert(ws.take(i + 1).last() == *w);
        let idx = usize_decimal(i);
        let ghost eb = strings_view(errors@);
        let bad_fp = !hex_fingerprint(w.fingerprint.as_str());
        let mut m1 = owned("waivers[");
        push_str(&mut m1, idx.as_str());
        push_str(&mut m1, "].fingerprint must be a 64-character hex string, got: ");
        push_str(&mut m1, w.fingerprint.as_str());
        push_if(&mut errors, bad_fp, m1.as_str());
        let rc = chars_of(w.reason.as_str());
        let rt = trim(&rc);
        let mut m2 = owned("waivers[");
        push_str(&mut m2, idx.as_str());
        push_str(&mut m2, "].reason must not be empty");
        push_if(&mut errors, rt.len() == 0, m2.as_str());
        assert(strings_view(errors@) =~= e4 + waiver_errors(ws.take(i + 1)));
        let ghost wb = strings_view(warnings@);
        match &w.expires {
            Some(e) => {
                let expired = is_waiver_expired(w, today);
                let mut m3 = owned("waivers[");
                push_str(&mut m3, idx.as_str());
                push_str(&mut m3, "].expires (");
                push_str(&mut m3, e.as_str());
                push_str(&mut m3, ") has already passed");
                push_if(&mut warnings, expired, m3.as_str());
            },
            None => {
                assert(strings_view(warnings@) =~= wb + seq![]);
            },
        }
        assert(strings_view(warnings@) =~= w3 + waiver_warnings(ws.take(i + 1), today));
        i += 1;
    }
    assert(ws.take(config.waivers.len() as int) =~= ws);
    assert(strings_view(errors@) =~= spec_config_errors(*config, *facts));
    assert(strings_view(warnings@) =~= spec_config_warnings(*config, *facts, today));
    ValidationResult { errors, warnings }
}

/// The diagnostics of a configuration, waivers judged on today's date in UTC;
/// whatever that date is, the result is `validate_config_on` for it.
pub fn validate_config(config: &SemverguardConfig, facts: &PathFacts) -> (r: ValidationResult)
    ensures
        strings_view(r.errors@) == spec_config_errors(*config, *facts),
        exists|today: (i32, u8, u8)| strings_view(r.warnings@) == #[trigger] spec_config_warnings(*config, *facts, today),
{
    let today = today_utc();
    validate_config_on(config, facts, today)
}

} // verus!
