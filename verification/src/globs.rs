//! Package-name glob filters, built on the `globset` crate.
use vstd::prelude::*;
use globset::{Glob, GlobSet, GlobSetBuilder};
use crate::error::SemverguardError;
use crate::text::{owned, push_str};

verus! {

/// A compiled glob pattern of `globset`.
#[verifier::external_type_specification]
#[verifier::external_body]
pub struct ExGlob(globset::Glob);

/// A collection of globs being assembled (`globset`).
#[verifier::external_type_specification]
#[verifier::external_body]
pub struct ExGlobSetBuilder(globset::GlobSetBuilder);

/// A compiled set of globs (`globset`).
#[verifier::external_type_specification]
#[verifier::external_body]
pub struct ExGlobSet(globset::GlobSet);

/// An error of `globset`.
#[verifier::external_type_specification]
#[verifier::external_body]
pub struct ExGlobError(globset::Error);

/// What `Glob::new` (default options) reports for a pattern it rejects: the text
/// of its error; nothing for a pattern it accepts.
pub uninterp spec fn glob_new_error(pattern: Seq<char>) -> Option<Seq<char>>;

/// Whether `Glob::new` accepts a pattern.
pub open spec fn glob_is_valid(pattern: Seq<char>) -> bool {
    glob_new_error(pattern) is None
}

/// The pattern text a `Glob` was built from (what `Glob::glob` returns).
pub uninterp spec fn glob_text(g: Glob) -> Seq<char>;

/// Whether a glob pattern (default options) matches a path text.
pub uninterp spec fn glob_matches(pattern: Seq<char>, text: Seq<char>) -> bool;

/// The patterns added to a builder, in order.
pub uninterp spec fn builder_globs(b: GlobSetBuilder) -> Seq<Seq<char>>;

/// The patterns of a compiled set, in order.
pub uninterp spec fn set_globs(s: GlobSet) -> Seq<Seq<char>>;

/// `Glob::new`: compiles a pattern with default options; it fails exactly on
/// the patterns `globset` rejects, giving the text of its error, and the glob
/// keeps the pattern's text.
#[verifier::external_body]
fn glob_new(pattern: &str) -> (r: Result<Glob, String>)
    ensures
        match r {
            Ok(g) => glob_new_error(pattern@) is None && glob_text(g) == pattern@,
            Err(m) => glob_new_error(pattern@) == Some(m@),
        },
{
    match Glob::new(pattern) {
        Ok(g) => Ok(g),
        Err(e) => Err(e.to_string()),
    }
}

/// `GlobSetBuilder::new`: a builder holding no pattern.
#[verifier::external_body]
fn builder_new() -> (r: GlobSetBuilder)
    ensures
        builder_globs(r) == Seq::<Seq<char>>::empty(),
{
    GlobSetBuilder::new()
}

/// `GlobSetBuilder::add`: appends the glob to the builder.
#[verifier::external_body]
fn builder_add(b: &mut GlobSetBuilder, g: Glob)
    ensures
        builder_globs(*final(b)) == builder_globs(*old(b)).push(glob_text(g)),
{
    b.add(g);
}

/// `GlobSetBuilder::build`: compiles the patterns added so far; when it succeeds
/// the set holds exactly those patterns. When it fails is not stated.
#[verifier::external_body]
fn builder_build(b: &GlobSetBuilder) -> (r: Result<GlobSet, globset::Error>)
    ensures
        r matches Ok(s) ==> set_globs(s) == builder_globs(*b),
{
    b.build()
}

/// Whether any pattern of `set` matches `text`.
pub open spec fn set_matches(set: Seq<Seq<char>>, text: Seq<char>) -> bool {
    exists|i: int| 0 <= i < set.len() && glob_matches(#[trigger] set[i], text)
}

/// `GlobSet::is_match`: true when any glob of the set matches the text.
#[verifier::external_body]
fn globset_is_match(s: &GlobSet, text: &str) -> (r: bool)
    ensures
        r == (exists|i: int|
            0 <= i < set_globs(*s).len() && glob_matches(#[trigger] set_globs(*s)[i], text@)),
{
    s.is_match(text)
}

/// Views of a list of strings.
pub open spec fn strings_view(v: Seq<String>) -> Seq<Seq<char>> {
    v.map_values(|s: String| s@)
}

/// Index of the first pattern that `Glob::new` rejects.
pub open spec fn first_invalid(patterns: Seq<Seq<char>>, k: int) -> bool {
    0 <= k < patterns.len() && !glob_is_valid(patterns[k]) && forall|j: int|
        0 <= j < k ==> glob_is_valid(#[trigger] patterns[j])
}

/// Whether `e` is what building a set from `patterns` fails with: the first pattern
/// that `Glob::new` refuses, or (some patterns, all accepted) the set's build error.
pub open spec fn glob_build_error(patterns: Seq<String>, e: SemverguardError) -> bool {
    e matches SemverguardError::InvalidConfig(m) && ((exists|k: int|
        first_invalid(strings_view(patterns), k) && m@.take(
            ("bad glob '"@ + patterns[k]@ + "': "@).len() as int,
        ) == "bad glob '"@ + patterns[k]@ + "': "@) || patterns.len() > 0 && (forall|j: int|
        0 <= j < patterns.len() ==> glob_is_valid(#[trigger] patterns[j]@)) && m@.take(
        "globset build error: "@.len() as int,
    ) == "globset build error: "@)
}

/// Build a glob set from patterns (`None` when there are none).
pub fn build_globset(patterns: &Vec<String>) -> (r: Result<Option<GlobSet>, SemverguardError>)
    ensures
        patterns@.len() == 0 ==> r matches Ok(None),
        r matches Ok(None) ==> patterns@.len() == 0,
        r matches Ok(Some(s)) ==> set_globs(s) == strings_view(patterns@),
        r is Ok ==> forall|j: int|
            0 <= j < patterns@.len() ==> glob_is_valid(#[trigger] patterns@[j]@),
        (exists|k: int| first_invalid(strings_view(patterns@), k)) ==> r is Err,
        r matches Err(e) ==> e is InvalidConfig,
        r matches Err(SemverguardError::InvalidConfig(m)) ==> (exists|k: int|
            first_invalid(strings_view(patterns@), k) && m@.take(
                ("bad glob '"@ + patterns@[k]@ + "': "@).len() as int,
            ) == "bad glob '"@ + patterns@[k]@ + "': "@) || (forall|j: int|
            0 <= j < patterns@.len() ==> glob_is_valid(#[trigger] patterns@[j]@)) && m@.take(
            "globset build error: "@.len() as int,
        ) == "globset build error: "@,
        r matches Err(e) ==> glob_build_error(patterns@, e),
{
    if patterns.len() == 0 {
        return Ok(None);
    }
    let ghost pv = strings_view(patterns@);
    let mut builder = builder_new();
    let mut i: usize = 0;
    while i < patterns.len()
        invariant
            i <= patterns.len(),
            pv == strings_view(patterns@),
            builder_globs(builder) == pv.take(i as int),
            forall|j: int| 0 <= j < i ==> glob_is_valid(#[trigger] pv[j]),
        decreases patterns.len() - i,
    {
        let p = &patterns[i];
        match glob_new(p.as_str()) {
            Ok(g) => {
                builder_add(&mut builder, g);
                assert(pv.take(i + 1) =~= pv.take(i as int).push(pv[i as int]));
            },
            Err(et) => {
                assert(first_invalid(pv, i as int));
                let mut m = owned("bad glob '");
                push_str(&mut m, p.as_str());
                push_str(&mut m, "': ");
                let ghost pre = m@;
                push_str(&mut m, et.as_str());
                assert(m@.take(pre.len() as int) =~= pre);
                return Err(SemverguardError::InvalidConfig(m));
            },
        }
        i += 1;
    }
    assert(pv.take(patterns.len() as int) =~= pv);
    assert forall|j: int| 0 <= j < patterns@.len() implies glob_is_valid(
        #[trigger] patterns@[j]@,
    ) by {
        assert(pv[j] == patterns@[j]@);
    }
    assert forall|k: int| !first_invalid(pv, k) by {}
    match builder_build(&builder) {
        Ok(s) => Ok(Some(s)),
        Err(e) => {
            let mut m = owned("globset build error: ");
            let ghost pre = m@;
            let et = e.to_string();
            push_str(&mut m, et.as_str());
            assert(m@.take(pre.len() as int) =~= pre);
            Err(SemverguardError::InvalidConfig(m))
        },
    }
}

/// Whether a name passes the include and exclude filters.
pub open spec fn spec_name_filter(
    name: Seq<char>,
    includes: Option<Seq<Seq<char>>>,
    excludes: Option<Seq<Seq<char>>>,
) -> bool {
    let included = match includes {
        None => true,
        Some(s) => set_matches(s, name),
    };
    let excluded = match excludes {
        None => false,
        Some(s) => set_matches(s, name),
    };
    included && !excluded
}

/// The patterns of an optional set.
pub open spec fn opt_set_globs(s: Option<GlobSet>) -> Option<Seq<Seq<char>>> {
    match s {
        Some(g) => Some(set_globs(g)),
        None => None,
    }
}

/// Whether a package name passes the include and exclude sets.
pub fn matches_name_filters(
    name: &str,
    includes: &Option<GlobSet>,
    excludes: &Option<GlobSet>,
) -> (r: bool)
    ensures
        r == spec_name_filter(name@, opt_set_globs(*includes), opt_set_globs(*excludes)),
{
    let included = match includes {
        None => true,
        Some(s) => globset_is_match(s, name),
    };
    let excluded = match excludes {
        None => false,
        Some(s) => globset_is_match(s, name),
    };
    included && !excluded
}

/// Whether `Glob::new` accepts a pattern; the text of its error otherwise.
pub fn check_glob(pattern: &str) -> (r: Result<(), String>)
    ensures
        match r {
            Ok(_) => glob_new_error(pattern@) is None,
            Err(m) => glob_new_error(pattern@) == Some(m@),
        },
{
    match glob_new(pattern) {
        Ok(_) => Ok(()),
        Err(e) => Err(e),
    }
}

} // verus!
