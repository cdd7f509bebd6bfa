//! Receipts handed over by an embedding process with untrusted path strings:
//! reserved artifact directories are filtered out and the rest is ordered by
//! normalized path.
use vstd::prelude::*;
use crate::artifacts::{forward_slashes, replace_backslashes};
use crate::order::{SortKey, keys_view, sort_order, sorted_positions};
use crate::receipt::SensorReportV1;
use crate::text::{chars_of, owned, seq_contains, contains};

verus! {

/// Reserved artifact directories: output of other tools, not sensor evidence.
pub open spec fn reserved_segments() -> Seq<Seq<char>> {
    seq!["artifacts/buildfix"@, "artifacts/cockpit"@]
}

/// The Windows extended-length prefix `\\?\`.
pub open spec fn ext_prefix() -> Seq<char> {
    seq!['\\', '\\', '?', '\\']
}

/// The extended-length prefix with forward slashes, `//?/`.
pub open spec fn ext_prefix_fwd() -> Seq<char> {
    seq!['/', '/', '?', '/']
}

/// A path with a Windows extended-length prefix removed and backslashes turned
/// into forward slashes.
pub open spec fn spec_normalize_path(p: Seq<char>) -> Seq<char> {
    let stripped = if p.len() >= 4 && p.take(4) == ext_prefix() {
        p.skip(4)
    } else if p.len() >= 4 && p.take(4) == ext_prefix_fwd() {
        p.skip(4)
    } else {
        p
    };
    forward_slashes(stripped)
}

/// Whether a normalized path lies in a reserved artifact directory: it starts
/// with the directory or holds it as a whole component sequence.
pub open spec fn spec_is_reserved(n: Seq<char>) -> bool {
    exists|i: int|
        0 <= i < reserved_segments().len() && {
            let seg = #[trigger] reserved_segments()[i];
            (n.len() >= seg.len() + 1 && n.take(seg.len() as int + 1) == seg.push('/')) || seq_contains(
                n,
                seq!['/'] + seg.push('/'),
            )
        }
}

fn starts_with_chars(s: &Vec<char>, p: &Vec<char>) -> (r: bool)
    ensures
        r == (s@.len() >= p@.len() && s@.take(p@.len() as int) == p@),
{
    if s.len() < p.len() {
        return false;
    }
    let mut i: usize = 0;
    while i < p.len()
        invariant
            i <= p.len(),
            p.len() <= s.len(),
            forall|j: int| 0 <= j < i ==> s@[j] == p@[j],
        decreases p.len() - i,
    {
        if s[i] != p[i] {
            assert(s@.take(p@.len() as int)[i as int] != p@[i as int]);
            return false;
        }
        i += 1;
    }
    assert(s@.take(p@.len() as int) =~= p@);
    true
}

/// A path with a Windows extended-length prefix (`\\?\` or `//?/`) removed and
/// backslashes turned into forward slashes.
pub fn normalize_path(path: &str) -> (r: String)
    ensures
        r@ == spec_normalize_path(path@),
{
    let cs = chars_of(path);
    let mut a: Vec<char> = Vec::new();
    a.push('\\');
    a.push('\\');
    a.push('?');
    a.push('\\');
    let mut b: Vec<char> = Vec::new();
    b.push('/');
    b.push('/');
    b.push('?');
    b.push('/');
    assert(a@ =~= ext_prefix());
    assert(b@ =~= ext_prefix_fwd());
    let start: usize = if starts_with_chars(&cs, &a) || starts_with_chars(&cs, &b) {
        4
    } else {
        0
    };
    let mut rest: Vec<char> = Vec::new();
    let mut i: usize = start;
    while i < cs.len()
        invariant
            start <= i <= cs.len(),
            rest@ == cs@.subrange(start as int, i as int),
        decreases cs.len() - i,
    {
        rest.push(cs[i]);
        assert(cs@.subrange(start as int, i + 1) =~= cs@.subrange(start as int, i as int).push(cs@[i as int]));
        i += 1;
    }
    assert(cs@.subrange(start as int, cs.len() as int) =~= cs@.skip(start as int));
    assert(cs@.skip(0) =~= cs@);
    let s = crate::text::string_from_chars(&rest);
    replace_backslashes(s.as_str())
}

/// Whether a normalized path lies in a reserved artifact directory
/// (`artifacts/buildfix` or `artifacts/cockpit`).
pub fn is_reserved(normalized: &str) -> (r: bool)
    ensures
        r == spec_is_reserved(normalized@),
{
    let n = chars_of(normalized);
    proof {
        reveal_strlit("artifacts/buildfix/");
        reveal_strlit("/artifacts/buildfix/");
        reveal_strlit("artifacts/cockpit/");
        reveal_strlit("/artifacts/cockpit/");
        reveal_strlit("artifacts/buildfix");
        reveal_strlit("artifacts/cockpit");
        assert("artifacts/buildfix/"@ =~= "artifacts/buildfix"@.push('/'));
        assert("/artifacts/buildfix/"@ =~= seq!['/'] + "artifacts/buildfix"@.push('/'));
        assert("artifacts/cockpit/"@ =~= "artifacts/cockpit"@.push('/'));
        assert("/artifacts/cockpit/"@ =~= seq!['/'] + "artifacts/cockpit"@.push('/'));
        assert(reserved_segments()[0] == "artifacts/buildfix"@);
        assert(reserved_segments()[1] == "artifacts/cockpit"@);
    }
    let bf = chars_of("artifacts/buildfix/");
    let ck = chars_of("artifacts/cockpit/");
    let r = starts_with_chars(&n, &bf) || contains(&n, "/artifacts/buildfix/") || starts_with_chars(&n, &ck)
        || contains(&n, "/artifacts/cockpit/");
    r
}

/// A receipt with the path it came from.
pub struct ReceiptEntry {
    /// The path as the embedder gave it.
    pub path: String,
    /// The receipt.
    pub receipt: SensorReportV1,
}

/// Receipts gathered in memory, with untrusted paths.
pub struct InMemoryReceiptSource {
    entries: Vec<ReceiptEntry>,
}

impl View for InMemoryReceiptSource {
    type V = Seq<ReceiptEntry>;

    closed spec fn view(&self) -> Seq<ReceiptEntry> {
        self.entries@
    }
}

/// The entries outside reserved directories, in the order given.
pub open spec fn spec_unreserved(es: Seq<ReceiptEntry>) -> Seq<ReceiptEntry>
    decreases es.len(),
{
    if es.len() == 0 {
        seq![]
    } else {
        let prev = spec_unreserved(es.drop_last());
        if spec_is_reserved(spec_normalize_path(es.last().path@)) {
            prev
        } else {
            prev.push(es.last())
        }
    }
}

/// Sort keys of entries: their normalized paths.
pub open spec fn entry_keys(es: Seq<ReceiptEntry>) -> Seq<(u8, Seq<Seq<char>>)> {
    es.map_values(|e: ReceiptEntry| (0u8, seq![spec_normalize_path(e.path@)]))
}

/// The entries a source hands out: those outside reserved directories, ordered
/// by normalized path, equal paths in the order they were added.
pub open spec fn spec_into_receipts(es: Seq<ReceiptEntry>) -> Seq<ReceiptEntry> {
    let kept = spec_unreserved(es);
    sorted_positions(entry_keys(kept)).map_values(|i: usize| kept[i as int])
}

impl InMemoryReceiptSource {
    /// An empty source.
    pub fn new() -> (r: Self)
        ensures
            r@ == Seq::<ReceiptEntry>::empty(),
    {
        InMemoryReceiptSource { entries: Vec::new() }
    }

    /// Add a receipt with the path it came from (kept as given).
    pub fn push(&mut self, path: &str, receipt: SensorReportV1)
        ensures
            final(self)@.len() == old(self)@.len() + 1,
            forall|i: int| 0 <= i < old(self)@.len() ==> final(self)@[i] == old(self)@[i],
            final(self)@.last().path@ == path@,
            final(self)@.last().receipt == receipt,
    {
        self.entries.push(ReceiptEntry { path: owned(path), receipt });
    }

    /// The number of entries added, reserved ones included.
    pub fn len(&self) -> (r: usize)
        ensures
            r == self@.len(),
    {
        self.entries.len()
    }

    /// Whether nothing was added.
    pub fn is_empty(&self) -> (r: bool)
        ensures
            r == (self@.len() == 0),
    {
        self.entries.len() == 0
    }

    /// The entries outside reserved directories (`artifacts/buildfix`,
    /// `artifacts/cockpit`), ordered by normalized path; entries with equal
    /// paths keep the order they were added in.
    pub fn into_receipts(self) -> (r: Vec<ReceiptEntry>)
        ensures
            r@ == spec_into_receipts(self@),
    {
        let ghost es = self.entries@;
        let mut entries = self.entries;
        // Move the entries into slots (last first) so they can be taken out by position.
        let n = entries.len();
        let mut slots: Vec<Option<ReceiptEntry>> = Vec::new();
        while entries.len() > 0
            invariant
                entries.len() + slots.len() == n,
                n == es.len(),
                forall|k: int| 0 <= k < entries.len() ==> entries@[k] == es[k],
                forall|k: int| 0 <= k < slots.len() ==> slots@[k] == Some(es[n - 1 - k]),
            decreases entries.len(),
        {
            let e = entries.pop().unwrap();
            slots.push(Some(e));
        }
        // Positions of the entries outside reserved directories, with their keys.
        let mut kept: Vec<usize> = Vec::new();
        let mut keys: Vec<SortKey> = Vec::new();
        let mut i: usize = 0;
        while i < n
            invariant
                i <= n,
                n == es.len(),
                slots.len() == n,
                forall|k: int| 0 <= k < n ==> slots@[k] == Some(es[n - 1 - k]),
                kept@.map_values(|j: usize| es[j as int]) == spec_unreserved(es.take(i as int)),
                forall|k: int| 0 <= k < kept.len() ==> #[trigger] kept@[k] < i,
                forall|a: int, b: int| 0 <= a < b < kept.len() ==> #[trigger] kept@[a] < #[trigger] kept@[b],
                keys_view(keys@) == entry_keys(spec_unreserved(es.take(i as int))),
            decreases n - i,
        {
            let path_norm = match &slots[n - 1 - i] {
                Some(e) => normalize_path(e.path.as_str()),
                None => String::new(),
            };
            assert(es.take(i + 1).drop_last() =~= es.take(i as int));
            assert(es.take(i + 1).last() == es[i as int]);
            if !is_reserved(path_norm.as_str()) {
                let ghost before_k = kept@.map_values(|j: usize| es[j as int]);
                let ghost before_v = keys_view(keys@);
                kept.push(i);
                let mut parts: Vec<Vec<char>> = Vec::new();
                parts.push(chars_of(path_norm.as_str()));
                keys.push(SortKey { rank: 0, parts });
                assert(kept@.map_values(|j: usize| es[j as int]) =~= before_k.push(es[i as int]));
                assert(parts@.map_values(|p: Vec<char>| p@) =~= seq![spec_normalize_path(es[i as int].path@)]);
                assert(keys_view(keys@) =~= before_v.push((0u8, seq![spec_normalize_path(es[i as int].path@)])));
                assert(entry_keys(spec_unreserved(es.take(i + 1))) =~= entry_keys(spec_unreserved(es.take(i as int))).push(
                    (0u8, seq![spec_normalize_path(es[i as int].path@)]),
                ));
            }
            i += 1;
        }
        assert(es.take(n as int) =~= es);
        let ghost kept_es = spec_unreserved(es);
        let order = sort_order(&keys);
        let ghost want = spec_into_receipts(es);
        let mut out: Vec<ReceiptEntry> = Vec::new();
        let mut k: usize = 0;
        assert(out@ =~= want.take(0));
        while k < order.len()
            invariant
                k <= order.len(),
                n == es.len(),
                slots.len() == n,
                order.len() == kept.len(),
                kept_es == spec_unreserved(es),
                kept@.map_values(|j: usize| es[j as int]) == kept_es,
                forall|q: int| 0 <= q < kept.len() ==> #[trigger] kept@[q] < n,
                forall|a: int, b: int| 0 <= a < b < kept.len() ==> #[trigger] kept@[a] < #[trigger] kept@[b],
                order@ == sorted_positions(entry_keys(kept_es)),
                crate::order::is_sorted_order(entry_keys(kept_es), order@),
                forall|q: int| k <= q < order.len() ==> slots@[n - 1 - kept@[order@[q] as int]] == Some(
                    es[kept@[order@[q] as int] as int],
                ),
                want == spec_into_receipts(es),
                out@ == want.take(k as int),
            decreases order.len() - k,
        {
            let j = kept[order[k]];
            let ghost ok = order@[k as int] as int;
            assert(slots@[n - 1 - j] == Some(es[j as int]));
            let mut tmp: Option<ReceiptEntry> = None;
            std::mem::swap(&mut tmp, &mut slots[n - 1 - j]);
            let e = tmp.unwrap();
            proof {
                assert forall|q: int| k + 1 <= q < order.len() implies slots@[n - 1 - kept@[order@[q] as int]] == Some(
                    es[kept@[order@[q] as int] as int],
                ) by {
                    crate::order::lemma_sorted_order_distinct(entry_keys(kept_es), order@, q, k as int);
                    let a = order@[q] as int;
                    if a < ok {
                        assert(kept@[a] < kept@[ok]);
                    } else {
                        assert(kept@[ok] < kept@[a]);
                    }
                }
                assert(want[k as int] == kept_es[ok]);
                assert(kept_es[ok] == es[kept@[ok] as int]);
            }
            out.push(e);
            assert(out@ =~= want.take(k + 1));
            k += 1;
        }
        assert(want.take(order.len() as int) =~= want);
        out
    }
}

} // verus!
