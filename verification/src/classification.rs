//! Classification of engine outcomes into failure kinds and baseline error causes.
use vstd::prelude::*;
use crate::model::{BaselineErrorCause, FailureKind, SemverCheckOutput};
use crate::error::SemverguardError;
use crate::text::{
    chars_of, find, seq_ascii_lower, seq_contains, spec_find, spec_trim, string_from_chars, to_ascii_lower,
    trim, contains, owned, push_char, push_str,
};

verus! {

/// The mathematical view of a baseline error cause.
pub enum CauseView {
    /// Shallow clone.
    ShallowClone { detail: Option<Seq<char>> },
    /// Revision not found.
    RevisionNotFound { rev: Seq<char> },
    /// Crate absent from the baseline.
    CrateAbsentFromBaseline { crate_name: Seq<char> },
    /// Merge base not found.
    MergeBaseNotFound { base: Seq<char>, head: Seq<char> },
    /// Rustdoc generation failed.
    RustdocGenerationFailed { detail: Option<Seq<char>> },
    /// Never published.
    NotPublished { crate_name: Seq<char>, version: Option<Seq<char>> },
    /// Anything else.
    Other { message: Seq<char> },
}

/// View of an optional string.
pub open spec fn opt_view(o: Option<String>) -> Option<Seq<char>> {
    match o {
        Some(s) => Some(s@),
        None => None,
    }
}

impl View for BaselineErrorCause {
    type V = CauseView;

    open spec fn view(&self) -> CauseView {
        match self {
            BaselineErrorCause::ShallowClone { detail } => CauseView::ShallowClone {
                detail: opt_view(*detail),
            },
            BaselineErrorCause::RevisionNotFound { rev } => CauseView::RevisionNotFound {
                rev: rev@,
            },
            BaselineErrorCause::CrateAbsentFromBaseline { crate_name } =>
                CauseView::CrateAbsentFromBaseline { crate_name: crate_name@ },
            BaselineErrorCause::MergeBaseNotFound { base, head } =>
                CauseView::MergeBaseNotFound { base: base@, head: head@ },
            BaselineErrorCause::RustdocGenerationFailed { detail } =>
                CauseView::RustdocGenerationFailed { detail: opt_view(*detail) },
            BaselineErrorCause::NotPublished { crate_name, version } => CauseView::NotPublished {
                crate_name: crate_name@,
                version: opt_view(*version),
            },
            BaselineErrorCause::Other { message } => CauseView::Other { message: message@ },
        }
    }
}

/// View of an optional cause.
pub open spec fn opt_cause_view(o: Option<BaselineErrorCause>) -> Option<CauseView> {
    match o {
        Some(c) => Some(c@),
        None => None,
    }
}

/// Result of classifying an output, including detailed baseline error info.
#[derive(Debug)]
pub struct ClassificationResult {
    /// The high-level failure kind.
    pub kind: FailureKind,
    /// Detailed baseline error cause (if kind is BaselineError).
    pub baseline_cause: Option<BaselineErrorCause>,
}

impl ClassificationResult {
    /// Create a classification with just a kind (no baseline details).
    pub fn simple(kind: FailureKind) -> (r: Self)
        ensures
            r.kind == kind,
            r.baseline_cause is None,
    {
        ClassificationResult { kind, baseline_cause: None }
    }

    /// Create a baseline error classification with details.
    pub fn baseline(cause: BaselineErrorCause) -> (r: Self)
        ensures
            r.kind == FailureKind::BaselineError,
            r.baseline_cause == Some(cause),
    {
        ClassificationResult { kind: FailureKind::BaselineError, baseline_cause: Some(cause) }
    }
}

/// UTF-8 byte length of one character.
pub open spec fn char_utf8_len(c: char) -> nat {
    if (c as u32) < 0x80 {
        1
    } else if (c as u32) < 0x800 {
        2
    } else if (c as u32) < 0x10000 {
        3
    } else {
        4
    }
}

/// UTF-8 byte length of a character sequence.
pub open spec fn utf8_len(s: Seq<char>) -> nat
    decreases s.len(),
{
    if s.len() == 0 {
        0
    } else {
        utf8_len(s.drop_last()) + char_utf8_len(s.last())
    }
}

/// Whether the UTF-8 byte length of `s` is below `limit` (executable).
pub fn utf8_len_below(s: &Vec<char>, limit: usize) -> (r: bool)
    ensures
        r == (utf8_len(s@) < limit),
{
    if limit == 0 {
        return false;
    }
    let mut total: usize = 0;
    let mut i: usize = 0;
    while i < s.len()
        invariant
            i <= s.len(),
            total == utf8_len(s@.take(i as int)),
            total < limit,
        decreases s.len() - i,
    {
        let c = s[i] as u32;
        let w: usize = if c < 0x80 {
            1
        } else if c < 0x800 {
            2
        } else if c < 0x10000 {
            3
        } else {
            4
        };
        assert(s@.take(i + 1).drop_last() =~= s@.take(i as int));
        if w >= limit - total {
            proof {
                lemma_utf8_len_prefix_mono(s@, i + 1);
            }
            return false;
        }
        total = total + w;
        i += 1;
    }
    assert(s@.take(s.len() as int) =~= s@);
    true
}

proof fn lemma_utf8_len_prefix_mono(s: Seq<char>, k: int)
    requires
        0 <= k <= s.len(),
    ensures
        utf8_len(s.take(k)) <= utf8_len(s),
    decreases s.len() - k,
{
    if k < s.len() {
        lemma_utf8_len_prefix_mono(s, k + 1);
        assert(s.take(k + 1).drop_last() =~= s.take(k));
    } else {
        assert(s.take(k) =~= s);
    }
}

/// The text between the first `q` in `after` and the next `q`, when that text is a
/// plausible revision (non-empty, under 100 bytes).
pub open spec fn quoted_candidate(after: Seq<char>, q: char) -> Option<Seq<char>> {
    match spec_find(after, seq![q]) {
        Some(qs) => {
            let after_quote = after.subrange(qs + 1, after.len() as int);
            match spec_find(after_quote, seq![q]) {
                Some(qe) => {
                    let rev = after_quote.subrange(0, qe);
                    if rev.len() > 0 && utf8_len(rev) < 100 {
                        Some(rev)
                    } else {
                        None
                    }
                },
                None => None,
            }
        },
        None => None,
    }
}

/// Revision candidate found after the first occurrence of `pattern`.
pub open spec fn revision_after(text: Seq<char>, pattern: Seq<char>) -> Option<Seq<char>> {
    match spec_find(text, pattern) {
        Some(pos) => {
            let after = text.subrange(pos, text.len() as int);
            match quoted_candidate(after, '\'') {
                Some(r) => Some(r),
                None => quoted_candidate(after, '"'),
            }
        },
        None => None,
    }
}

/// A quoted revision near the words "revision", "rev" or "ref".
pub open spec fn spec_extract_revision(text: Seq<char>) -> Option<Seq<char>> {
    match revision_after(text, "revision"@) {
        Some(r) => Some(r),
        None => match revision_after(text, "rev"@) {
            Some(r) => Some(r),
            None => revision_after(text, "ref"@),
        },
    }
}

fn quoted_candidate_exec(after: &Vec<char>, q: char) -> (r: Option<Vec<char>>)
    ensures
        r matches Some(v) ==> quoted_candidate(after@, q) == Some(v@),
        r is None ==> quoted_candidate(after@, q) is None,
{
    let mut qv: Vec<char> = Vec::new();
    qv.push(q);
    assert(qv@ =~= seq![q]);
    proof {
        crate::text::lemma_spec_find(after@, qv@);
    }
    match find(after, &qv) {
        Some(qs) => {
            assert(crate::text::first_match(after@, qv@, qs as int));
            assert(crate::text::match_at(after@, qv@, qs as int));
            assert(qv@.len() == 1);
            assert(qs + 1 <= after@.len());
            assert(qs < after.len());
            let mut after_quote: Vec<char> = Vec::new();
            let mut k: usize = qs + 1;
            while k < after.len()
                invariant
                    qs + 1 <= k <= after.len(),
                    after_quote@ == after@.subrange(qs + 1, k as int),
                decreases after.len() - k,
            {
                after_quote.push(after[k]);
                assert(after@.subrange(qs + 1, k + 1) =~= after@.subrange(qs + 1, k as int).push(
                    after@[k as int],
                ));
                k += 1;
            }
            proof {
                crate::text::lemma_spec_find(after_quote@, qv@);
            }
            match find(&after_quote, &qv) {
                Some(qe) => {
                    let rev = prefix(&after_quote, qe);
                    if rev.len() > 0 && utf8_len_below(&rev, 100) {
                        Some(rev)
                    } else {
                        None
                    }
                },
                None => None,
            }
        },
        None => None,
    }
}

/// The first `n` characters of `s`.
pub fn prefix(s: &Vec<char>, n: usize) -> (r: Vec<char>)
    requires
        n <= s.len(),
    ensures
        r@ == s@.subrange(0, n as int),
{
    let mut out: Vec<char> = Vec::new();
    let mut k: usize = 0;
    while k < n
        invariant
            k <= n <= s.len(),
            out@ == s@.subrange(0, k as int),
        decreases n - k,
    {
        out.push(s[k]);
        assert(s@.subrange(0, k + 1) =~= s@.subrange(0, k as int).push(s@[k as int]));
        k += 1;
    }
    out
}

/// The characters of `s` from index `n` on.
pub fn suffix_from(s: &Vec<char>, n: usize) -> (r: Vec<char>)
    requires
        n <= s.len(),
    ensures
        r@ == s@.subrange(n as int, s.len() as int),
{
    let mut out: Vec<char> = Vec::new();
    let mut k: usize = n;
    while k < s.len()
        invariant
            n <= k <= s.len(),
            out@ == s@.subrange(n as int, k as int),
        decreases s.len() - k,
    {
        out.push(s[k]);
        assert(s@.subrange(n as int, k + 1) =~= s@.subrange(n as int, k as int).push(s@[k as int]));
        k += 1;
    }
    out
}

fn revision_after_exec(text: &Vec<char>, pattern: &str) -> (r: Option<Vec<char>>)
    ensures
        r matches Some(v) ==> revision_after(text@, pattern@) == Some(v@),
        r is None ==> revision_after(text@, pattern@) is None,
{
    let pv = chars_of(pattern);
    proof {
        crate::text::lemma_spec_find(text@, pv@);
    }
    match find(text, &pv) {
        Some(pos) => {
            let after = suffix_from(text, pos);
            match quoted_candidate_exec(&after, '\'') {
                Some(r) => Some(r),
                None => quoted_candidate_exec(&after, '"'),
            }
        },
        None => None,
    }
}

/// Try to extract a git revision from an error message.
pub fn extract_revision(text: &str) -> (r: Option<String>)
    ensures
        opt_view(r) == spec_extract_revision(text@),
{
    let t = chars_of(text);
    match revision_after_exec(&t, "revision") {
        Some(v) => Some(string_from_chars(&v)),
        None => match revision_after_exec(&t, "rev") {
            Some(v) => Some(string_from_chars(&v)),
            None => match revision_after_exec(&t, "ref") {
                Some(v) => Some(string_from_chars(&v)),
                None => None,
            },
        },
    }
}

/// The trimmed snippet of at most 100 characters starting at the first occurrence of
/// `keyword`, when it says more than the keyword itself.
pub open spec fn detail_after(text: Seq<char>, keyword: Seq<char>) -> Option<Seq<char>> {
    match spec_find(text, keyword) {
        Some(pos) => {
            let after = text.subrange(pos, text.len() as int);
            let snippet = spec_trim(after.take(if after.len() < 100 { after.len() as int } else { 100 }));
            if snippet.len() > 0 && snippet != keyword {
                Some(snippet)
            } else {
                None
            }
        },
        None => None,
    }
}

/// The first detail found over a list of keywords.
pub open spec fn spec_extract_detail(text: Seq<char>, keywords: Seq<Seq<char>>) -> Option<Seq<char>>
    decreases keywords.len(),
{
    if keywords.len() == 0 {
        None
    } else {
        match detail_after(text, keywords[0]) {
            Some(d) => Some(d),
            None => spec_extract_detail(text, keywords.drop_first()),
        }
    }
}

/// Views of a list of string slices.
pub open spec fn strs_view(v: Seq<&str>) -> Seq<Seq<char>> {
    v.map_values(|s: &str| s@)
}

fn seq_eq(a: &Vec<char>, b: &Vec<char>) -> (r: bool)
    ensures
        r == (a@ == b@),
{
    if a.len() != b.len() {
        return false;
    }
    let mut i: usize = 0;
    while i < a.len()
        invariant
            a.len() == b.len(),
            i <= a.len(),
            forall|j: int| 0 <= j < i ==> a@[j] == b@[j],
        decreases a.len() - i,
    {
        if a[i] != b[i] {
            return false;
        }
        i += 1;
    }
    assert(a@ =~= b@);
    true
}

/// Extract detail text after a keyword.
pub fn extract_detail(text: &str, keywords: &[&str]) -> (r: Option<String>)
    ensures
        opt_view(r) == spec_extract_detail(text@, strs_view(keywords@)),
{
    let t = chars_of(text);
    assert(strs_view(keywords@).skip(0) =~= strs_view(keywords@));
    let mut i: usize = 0;
    while i < keywords.len()
        invariant
            i <= keywords.len(),
            t@ == text@,
            spec_extract_detail(text@, strs_view(keywords@)) == spec_extract_detail(
                text@,
                strs_view(keywords@).skip(i as int),
            ),
        decreases keywords.len() - i,
    {
        let kw = chars_of(keywords[i]);
        let ghost rest = strs_view(keywords@).skip(i as int);
        assert(rest[0] == keywords@[i as int]@);
        assert(rest.drop_first() =~= strs_view(keywords@).skip(i + 1));
        proof {
            crate::text::lemma_spec_find(t@, kw@);
        }
        if let Some(pos) = find(&t, &kw) {
            let after = suffix_from(&t, pos);
            let n: usize = if after.len() < 100 {
                after.len()
            } else {
                100
            };
            let head = prefix(&after, n);
            assert(head@ =~= after@.take(n as int));
            let snippet = trim(&head);
            if snippet.len() > 0 && !seq_eq(&snippet, &kw) {
                return Some(string_from_chars(&snippet));
            }
        }
        i += 1;
    }
    None
}

} // verus!

verus! {

/// Whether `h` mentions the word `w`.
pub open spec fn has(h: Seq<char>, w: &str) -> bool {
    seq_contains(h, w@)
}

/// The given crate name, or "unknown".
pub open spec fn name_or_unknown(crate_name: Option<Seq<char>>) -> Seq<char> {
    match crate_name {
        Some(n) => n,
        None => "unknown"@,
    }
}

/// The baseline error cause that a (lowercased) message describes, if any.
pub open spec fn spec_detect_from_message(hay: Seq<char>, crate_name: Option<Seq<char>>) -> Option<
    CauseView,
> {
    if !(has(hay, "baseline") || has(hay, "revision") || has(hay, "merge-base") || has(
        hay,
        "merge base",
    ) || has(hay, "not published") || has(hay, "never published") || has(hay, "crates.io")) {
        None
    } else if has(hay, "shallow") {
        Some(
            CauseView::ShallowClone {
                detail: spec_extract_detail(hay, seq!["shallow clone"@, "shallow repository"@]),
            },
        )
    } else if has(hay, "unknown revision") || (has(hay, "revision") && has(hay, "not found"))
        || has(hay, "bad revision") || has(hay, "unknown ref") {
        Some(
            CauseView::RevisionNotFound {
                rev: match spec_extract_revision(hay) {
                    Some(r) => r,
                    None => "unknown"@,
                },
            },
        )
    } else if (has(hay, "crate") || has(hay, "package")) && (has(hay, "not found") || has(
        hay,
        "does not exist",
    ) || has(hay, "missing")) && has(hay, "baseline") {
        Some(CauseView::CrateAbsentFromBaseline { crate_name: name_or_unknown(crate_name) })
    } else if has(hay, "merge base") || has(hay, "merge-base") {
        Some(CauseView::MergeBaseNotFound { base: "unknown"@, head: "HEAD"@ })
    } else if has(hay, "rustdoc") && (has(hay, "failed") || has(hay, "error")) {
        Some(
            CauseView::RustdocGenerationFailed {
                detail: spec_extract_detail(hay, seq!["rustdoc"@, "failed to generate"@]),
            },
        )
    } else if has(hay, "crates.io") || has(hay, "registry") || has(hay, "not published") || has(
        hay,
        "never published",
    ) {
        Some(CauseView::NotPublished { crate_name: name_or_unknown(crate_name), version: None })
    } else if has(hay, "baseline") && (has(hay, "not found") || has(hay, "missing") || has(
        hay,
        "error",
    ) || has(hay, "failed")) {
        Some(CauseView::Other { message: "baseline comparison failed"@ })
    } else {
        None
    }
}

/// View of an optional string slice.
pub open spec fn opt_str_view(o: Option<&str>) -> Option<Seq<char>> {
    match o {
        Some(s) => Some(s@),
        None => None,
    }
}

fn name_or_unknown_exec(crate_name: Option<&str>) -> (r: String)
    ensures
        r@ == name_or_unknown(opt_str_view(crate_name)),
{
    match crate_name {
        Some(n) => owned(n),
        None => owned("unknown"),
    }
}

/// Detect baseline error from a message string.
pub fn detect_baseline_error_from_message(hay: &str, crate_name: Option<&str>) -> (r: Option<
    BaselineErrorCause,
>)
    ensures
        opt_cause_view(r) == spec_detect_from_message(hay@, opt_str_view(crate_name)),
{
    let h = chars_of(hay);
    if !(contains(&h, "baseline") || contains(&h, "revision") || contains(&h, "merge-base")
        || contains(&h, "merge base") || contains(&h, "not published") || contains(
        &h,
        "never published",
    ) || contains(&h, "crates.io")) {
        return None;
    }
    if contains(&h, "shallow") {
        let kws: [&str; 2] = ["shallow clone", "shallow repository"];
        assert(strs_view(kws@) =~= seq!["shallow clone"@, "shallow repository"@]);
        let detail = extract_detail(hay, kws.as_slice());
        return Some(BaselineErrorCause::ShallowClone { detail });
    }
    if contains(&h, "unknown revision") || (contains(&h, "revision") && contains(&h, "not found"))
        || contains(&h, "bad revision") || contains(&h, "unknown ref") {
        let rev = match extract_revision(hay) {
            Some(r) => r,
            None => owned("unknown"),
        };
        return Some(BaselineErrorCause::RevisionNotFound { rev });
    }
    if (contains(&h, "crate") || contains(&h, "package")) && (contains(&h, "not found") || contains(
        &h,
        "does not exist",
    ) || contains(&h, "missing")) && contains(&h, "baseline") {
        return Some(
            BaselineErrorCause::CrateAbsentFromBaseline {
                crate_name: name_or_unknown_exec(crate_name),
            },
        );
    }
    if contains(&h, "merge base") || contains(&h, "merge-base") {
        return Some(
            BaselineErrorCause::MergeBaseNotFound { base: owned("unknown"), head: owned("HEAD") },
        );
    }
    if contains(&h, "rustdoc") && (contains(&h, "failed") || contains(&h, "error")) {
        let kws: [&str; 2] = ["rustdoc", "failed to generate"];
        assert(strs_view(kws@) =~= seq!["rustdoc"@, "failed to generate"@]);
        let detail = extract_detail(hay, kws.as_slice());
        return Some(BaselineErrorCause::RustdocGenerationFailed { detail });
    }
    if contains(&h, "crates.io") || contains(&h, "registry") || contains(&h, "not published")
        || contains(&h, "never published") {
        return Some(
            BaselineErrorCause::NotPublished {
                crate_name: name_or_unknown_exec(crate_name),
                version: None,
            },
        );
    }
    if contains(&h, "baseline") && (contains(&h, "not found") || contains(&h, "missing")
        || contains(&h, "error") || contains(&h, "failed")) {
        return Some(BaselineErrorCause::Other { message: owned("baseline comparison failed") });
    }
    None
}

} // verus!

verus! {

/// The text searched for baseline errors: stdout, a newline and stderr, lowercased.
pub open spec fn combined_output(stdout: Seq<char>, stderr: Seq<char>) -> Seq<char> {
    seq_ascii_lower(stdout + seq!['\n'] + stderr)
}

/// Detect specific baseline error causes from output text.
pub fn detect_baseline_error(stdout: &str, stderr: &str, crate_name: Option<&str>) -> (r: Option<
    BaselineErrorCause,
>)
    ensures
        opt_cause_view(r) == spec_detect_from_message(
            combined_output(stdout@, stderr@),
            opt_str_view(crate_name),
        ),
{
    let mut text = owned(stdout);
    push_char(&mut text, '\n');
    push_str(&mut text, stderr);
    assert(text@ =~= stdout@ + seq!['\n'] + stderr@);
    let cs = chars_of(text.as_str());
    let lower = to_ascii_lower(&cs);
    let lowered = string_from_chars(&lower);
    detect_baseline_error_from_message(lowered.as_str(), crate_name)
}

/// The classification of an engine output.
pub open spec fn spec_classify(output: SemverCheckOutput, crate_name: Option<Seq<char>>) -> (
    FailureKind,
    Option<CauseView>,
) {
    let detected = spec_detect_from_message(
        combined_output(output.stdout@, output.stderr@),
        crate_name,
    );
    if output.required_bump is Some {
        (FailureKind::SemverViolation, None)
    } else if output.exit_code == Some(1i32) {
        (FailureKind::SemverViolation, None)
    } else if output.exit_code == Some(2i32) || output.exit_code is None {
        match detected {
            Some(c) => (FailureKind::BaselineError, Some(c)),
            None => (FailureKind::ToolError, None),
        }
    } else {
        match detected {
            Some(c) => (FailureKind::BaselineError, Some(c)),
            None => (FailureKind::Unknown, None),
        }
    }
}

/// Classify a semver-check output with detailed baseline error information.
pub fn classify_output_detailed(output: &SemverCheckOutput, crate_name: Option<&str>) -> (r:
    ClassificationResult)
    ensures
        (r.kind, opt_cause_view(r.baseline_cause)) == spec_classify(
            *output,
            opt_str_view(crate_name),
        ),
{
    if output.required_bump.is_some() {
        return ClassificationResult::simple(FailureKind::SemverViolation);
    }
    match output.exit_code {
        Some(1) => ClassificationResult::simple(FailureKind::SemverViolation),
        Some(2) | None => {
            if let Some(cause) = detect_baseline_error(
                output.stdout.as_str(),
                output.stderr.as_str(),
                crate_name,
            ) {
                ClassificationResult::baseline(cause)
            } else {
                ClassificationResult::simple(FailureKind::ToolError)
            }
        },
        _ => {
            if let Some(cause) = detect_baseline_error(
                output.stdout.as_str(),
                output.stderr.as_str(),
                crate_name,
            ) {
                ClassificationResult::baseline(cause)
            } else {
                ClassificationResult::simple(FailureKind::Unknown)
            }
        },
    }
}

/// Classify a semver-check output into a failure kind.
pub fn classify_output(output: &SemverCheckOutput) -> (r: FailureKind)
    ensures
        r == spec_classify(*output, None).0,
{
    classify_output_detailed(output, None).kind
}

/// Classify engine invocation errors.
pub fn classify_engine_error(err: &SemverguardError) -> (r: FailureKind)
    ensures
        r == FailureKind::ToolError,
{
    FailureKind::ToolError
}

/// The classification of an error raised while invoking the engine.
pub open spec fn spec_classify_engine_error(msg: Seq<char>, crate_name: Option<Seq<char>>) -> (
    FailureKind,
    Option<CauseView>,
) {
    let lower = seq_ascii_lower(msg);
    if has(lower, "baseline") || has(lower, "revision") {
        match spec_detect_from_message(lower, crate_name) {
            Some(c) => (FailureKind::BaselineError, Some(c)),
            None => (FailureKind::ToolError, None),
        }
    } else {
        (FailureKind::ToolError, None)
    }
}

/// Classify engine invocation errors with detailed baseline information.
pub fn classify_engine_error_detailed(err: &SemverguardError, crate_name: Option<&str>) -> (r:
    ClassificationResult)
    ensures
        (r.kind, opt_cause_view(r.baseline_cause)) == spec_classify_engine_error(
            err.spec_message(),
            opt_str_view(crate_name),
        ),
{
    let msg = err.message();
    let cs = chars_of(msg.as_str());
    let lower = to_ascii_lower(&cs);
    if contains(&lower, "baseline") || contains(&lower, "revision") {
        let lowered = string_from_chars(&lower);
        if let Some(cause) = detect_baseline_error_from_message(lowered.as_str(), crate_name) {
            return ClassificationResult::baseline(cause);
        }
    }
    ClassificationResult::simple(FailureKind::ToolError)
}

} // verus!
