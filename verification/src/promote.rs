//! Baseline promotion: rewriting `baseline.rev` in a configuration text with
//! `toml_edit` (which keeps comments and layout), and the text that reports it.
use vstd::prelude::*;
use crate::classification::opt_view;
use crate::render::line;
use crate::text::{owned, push_char, push_str};
use toml_edit::DocumentMut;

verus! {

/// An editable TOML document (`toml_edit`).
#[verifier::external_type_specification]
#[verifier::external_body]
pub struct ExDocumentMut(toml_edit::DocumentMut);

/// What a TOML document holds, by key path from the root table through tables and
/// inline tables: for each present item, whether it is a table (a `[header]` or
/// dotted table, not an inline one) and its text when it is a string.
pub uninterp spec fn toml_entries(d: DocumentMut) -> Map<Seq<Seq<char>>, (bool, Option<Seq<char>>)>;

/// The text a document prints (`Display`), comments and layout included.
pub uninterp spec fn toml_text(d: DocumentMut) -> Seq<char>;

/// What `DocumentMut::from_str` makes of a text: the entries of the document, or
/// the text of its error.
pub uninterp spec fn toml_parse(text: Seq<char>) -> Result<Map<Seq<Seq<char>>, (bool, Option<Seq<char>>)>, Seq<char>>;

/// `DocumentMut::from_str`: parse a TOML text (errors as their text).
#[verifier::external_body]
fn parse_document(text: &str) -> (r: Result<DocumentMut, String>)
    ensures
        match r {
            Ok(d) => toml_parse(text@) == Ok::<Map<Seq<Seq<char>>, (bool, Option<Seq<char>>)>, Seq<char>>(toml_entries(d)),
            Err(m) => toml_parse(text@) == Err::<Map<Seq<Seq<char>>, (bool, Option<Seq<char>>)>, Seq<char>>(m@),
        },
{
    match text.parse::<DocumentMut>() {
        Ok(d) => Ok(d),
        Err(e) => Err(e.to_string()),
    }
}

/// `Table::get` on the root table: whether `key` holds an item.
#[verifier::external_body]
fn doc_contains(d: &DocumentMut, key: &str) -> (r: bool)
    ensures
        r == toml_entries(*d).contains_key(seq![key@]),
{
    d.get(key).is_some()
}

/// `Item::is_table` on the item at `key` of the root table.
#[verifier::external_body]
fn doc_item_is_table(d: &DocumentMut, key: &str) -> (r: bool)
    requires
        toml_entries(*d).contains_key(seq![key@]),
    ensures
        r == toml_entries(*d)[seq![key@]].0,
{
    d[key].is_table()
}

/// Assigning an empty `Table` to `key` of the root table, where no item was.
#[verifier::external_body]
fn doc_insert_table(d: &mut DocumentMut, key: &str)
    requires
        !toml_entries(*old(d)).contains_key(seq![key@]),
    ensures
        toml_entries(*final(d)) == toml_entries(*old(d)).insert(seq![key@], (true, None::<Seq<char>>)),
{
    d[key] = toml_edit::Item::Table(toml_edit::Table::new());
}

/// The string of an entry, when it is present and a string.
pub open spec fn entry_str(es: Map<Seq<Seq<char>>, (bool, Option<Seq<char>>)>, path: Seq<Seq<char>>) -> Option<Seq<char>> {
    if es.contains_key(path) {
        es[path].1
    } else {
        None
    }
}

/// Whether the entry at `path` is a table.
pub open spec fn entry_is_table(es: Map<Seq<Seq<char>>, (bool, Option<Seq<char>>)>, path: Seq<Seq<char>>) -> bool {
    es.contains_key(path) && es[path].0
}

/// `Table::get` then `Item::as_str` in the table at `table` of the root: the string
/// under `key`, if there is one.
#[verifier::external_body]
fn table_get_str(d: &DocumentMut, table: &str, key: &str) -> (r: Option<String>)
    requires
        entry_is_table(toml_entries(*d), seq![table@]),
    ensures
        opt_view(r) == entry_str(toml_entries(*d), seq![table@, key@]),
{
    match d[table].get(key) {
        Some(item) => item.as_str().map(|s| s.to_string()),
        None => None,
    }
}

/// `Table::get` in the table at `table` of the root: whether `key` holds an item.
#[verifier::external_body]
fn table_contains(d: &DocumentMut, table: &str, key: &str) -> (r: bool)
    requires
        entry_is_table(toml_entries(*d), seq![table@]),
    ensures
        r == toml_entries(*d).contains_key(seq![table@, key@]),
{
    d[table].get(key).is_some()
}

/// Whether `path` starts with `prefix`.
pub open spec fn has_prefix(path: Seq<Seq<char>>, prefix: Seq<Seq<char>>) -> bool {
    prefix.len() <= path.len() && path.take(prefix.len() as int) == prefix
}

/// The entries after the item at `path` is replaced by the string `s`: whatever was
/// under it is gone.
pub open spec fn set_leaf(es: Map<Seq<Seq<char>>, (bool, Option<Seq<char>>)>, path: Seq<Seq<char>>, s: Seq<char>) -> Map<Seq<Seq<char>>, (bool, Option<Seq<char>>)> {
    Map::new(
        |p: Seq<Seq<char>>| p == path || (es.contains_key(p) && !has_prefix(p, path)),
        |p: Seq<Seq<char>>| if p == path { (false, Some(s)) } else { es[p] },
    )
}

/// Assigning `toml_edit::value(value)` to `key` of the table at `table` of the root.
#[verifier::external_body]
fn table_set_str(d: &mut DocumentMut, table: &str, key: &str, value: &str)
    requires
        entry_is_table(toml_entries(*old(d)), seq![table@]),
    ensures
        toml_entries(*final(d)) == set_leaf(toml_entries(*old(d)), seq![table@, key@], value@),
{
    d[table][key] = toml_edit::value(value);
}

/// `Display` of a document.
#[verifier::external_body]
fn doc_to_text(d: &DocumentMut) -> (r: String)
    ensures
        r@ == toml_text(*d),
{
    d.to_string()
}

/// Why a promotion failed.
#[derive(Debug)]
pub enum PromoteError {
    /// The configuration is not valid TOML (the parser's message).
    Parse(String),
    /// `baseline` holds something other than a table.
    BaselineNotTable,
}

impl PromoteError {
    /// The message of the error.
    pub fn message(&self) -> (r: String)
        ensures
            r@ == match self {
                PromoteError::Parse(m) => m@,
                PromoteError::BaselineNotTable => "baseline is not a table"@,
            },
    {
        match self {
            PromoteError::Parse(m) => m.clone(),
            PromoteError::BaselineNotTable => owned("baseline is not a table"),
        }
    }
}

/// The entries of a configuration after promotion to `rev`: a `[baseline]` table
/// when there was none, `kind = "git"` when no kind was set, and `rev` set.
pub open spec fn promoted_entries(es: Map<Seq<Seq<char>>, (bool, Option<Seq<char>>)>, rev: Seq<char>) -> Map<Seq<Seq<char>>, (bool, Option<Seq<char>>)> {
    let b = seq!["baseline"@];
    let e1 = if es.contains_key(b) {
        es
    } else {
        es.insert(b, (true, None::<Seq<char>>))
    };
    let e2 = if e1.contains_key(seq!["baseline"@, "kind"@]) {
        e1
    } else {
        set_leaf(e1, seq!["baseline"@, "kind"@], "git"@)
    };
    set_leaf(e2, seq!["baseline"@, "rev"@], rev)
}

/// Promote the git baseline revision in the text of a configuration: parse it, make
/// sure there is a `[baseline]` table (with `kind = "git"` when no kind is set) and
/// set `baseline.rev` to `new_rev`. Gives what changed and the new text, whose
/// comments and layout `toml_edit` keeps; `write` only says whether the caller
/// writes it back.
pub fn promote_baseline_text(content: &str, new_rev: &str, write: bool) -> (r: Result<
    (PromotionResult, String),
    PromoteError,
>)
    ensures
        match toml_parse(content@) {
            Err(m) => r matches Err(PromoteError::Parse(e)) && e@ == m,
            Ok(es) => if es.contains_key(seq!["baseline"@]) && !es[seq!["baseline"@]].0 {
                r matches Err(PromoteError::BaselineNotTable)
            } else {
                r matches Ok((res, text)) && opt_view(res.previous) == entry_str(
                    es,
                    seq!["baseline"@, "rev"@],
                ) && res.new_value@ == new_rev@ && res.config_key@ == "baseline.rev"@
                    && res.written == write && exists|d: DocumentMut|
                    toml_entries(d) == promoted_entries(es, new_rev@) && #[trigger] toml_text(d)
                        == text@
            },
        },
{
    let mut doc = match parse_document(content) {
        Ok(d) => d,
        Err(m) => return Err(PromoteError::Parse(m)),
    };
    let ghost es = toml_entries(doc);
    if !doc_contains(&doc, "baseline") {
        doc_insert_table(&mut doc, "baseline");
    }
    if !doc_item_is_table(&doc, "baseline") {
        return Err(PromoteError::BaselineNotTable);
    }
    let previous = table_get_str(&doc, "baseline", "rev");
    if !table_contains(&doc, "baseline", "kind") {
        table_set_str(&mut doc, "baseline", "kind", "git");
    }
    table_set_str(&mut doc, "baseline", "rev", new_rev);
    let text = doc_to_text(&doc);
    let result = PromotionResult {
        previous,
        new_value: owned(new_rev),
        config_key: owned("baseline.rev"),
        written: write,
    };
    Ok((result, text))
}

/// The outcome of promoting the git baseline revision.
#[derive(Debug)]
pub struct PromotionResult {
    /// The revision before, if one was set.
    pub previous: Option<String>,
    /// The new revision.
    pub new_value: String,
    /// The configuration key changed.
    pub config_key: String,
    /// Whether the file was written.
    pub written: bool,
}

/// The lines printed after a promotion of the baseline in `path`.
pub open spec fn spec_promotion_text(path: Seq<char>, r: PromotionResult) -> Seq<char> {
    (if r.written {
        line("Baseline promoted in "@ + path)
    } else {
        line("Dry run (use --write to apply):"@)
    }) + line("  Key:      "@ + r.config_key@) + line(
        "  Previous: "@ + match r.previous {
            Some(p) => p@,
            None => "(not set)"@,
        },
    ) + line("  New:      "@ + r.new_value@)
}

fn push_line(s: &mut String, t: &str)
    ensures
        final(s)@ == old(s)@ + line(t@),
{
    push_str(s, t);
    push_char(s, '\n');
}

/// The lines printed after a promotion (see `spec_promotion_text`).
pub fn render_promotion(path: &str, result: &PromotionResult) -> (r: String)
    ensures
        r@ == spec_promotion_text(path@, *result),
{
    let mut out = String::new();
    if result.written {
        let mut t = owned("Baseline promoted in ");
        push_str(&mut t, path);
        push_line(&mut out, t.as_str());
    } else {
        push_line(&mut out, "Dry run (use --write to apply):");
    }
    let mut t = owned("  Key:      ");
    push_str(&mut t, result.config_key.as_str());
    push_line(&mut out, t.as_str());
    let mut t = owned("  Previous: ");
    match &result.previous {
        Some(p) => push_str(&mut t, p.as_str()),
        None => push_str(&mut t, "(not set)"),
    }
    push_line(&mut out, t.as_str());
    let mut t = owned("  New:      ");
    push_str(&mut t, result.new_value.as_str());
    push_line(&mut out, t.as_str());
    out
}

} // verus!
