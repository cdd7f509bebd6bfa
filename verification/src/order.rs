//! Lexicographic order on texts and a stable sort by keys.
//!
//! Texts are compared character by character, by code point, the order `str`
//! has in std (UTF-8 keeps code point order byte by byte). A sort key is a rank
//! followed by a list of texts; entries with equal keys keep their input order.
use vstd::prelude::*;

verus! {

/// Three-way lexicographic comparison of two texts: `-1`, `0` or `1`.
pub open spec fn char_lex(a: Seq<char>, b: Seq<char>) -> int
    decreases a.len(),
{
    if a.len() == 0 {
        if b.len() == 0 {
            0
        } else {
            -1
        }
    } else if b.len() == 0 {
        1
    } else if a[0] < b[0] {
        -1
    } else if a[0] > b[0] {
        1
    } else {
        char_lex(a.drop_first(), b.drop_first())
    }
}

/// `char_lex` is a total order: it is `0` exactly on equal texts, flips with its
/// arguments, and is transitive.
pub proof fn lemma_char_lex_eq(a: Seq<char>, b: Seq<char>)
    ensures
        char_lex(a, b) == 0 <==> a == b,
        char_lex(a, b) == -char_lex(b, a),
        -1 <= char_lex(a, b) <= 1,
    decreases a.len(),
{
    if a.len() > 0 && b.len() > 0 {
        lemma_char_lex_eq(a.drop_first(), b.drop_first());
        if a[0] == b[0] && char_lex(a.drop_first(), b.drop_first()) == 0 {
            assert(a =~= seq![a[0]] + a.drop_first());
            assert(b =~= seq![b[0]] + b.drop_first());
        }
        if a == b {
            assert(a.drop_first() == b.drop_first());
        }
    } else if a.len() == 0 && b.len() == 0 {
        assert(a =~= b);
    }
}

/// `char_lex` is transitive.
pub proof fn lemma_char_lex_trans(a: Seq<char>, b: Seq<char>, c: Seq<char>)
    requires
        char_lex(a, b) < 0,
        char_lex(b, c) < 0,
    ensures
        char_lex(a, c) < 0,
    decreases a.len(),
{
    if a.len() > 0 && b.len() > 0 && c.len() > 0 {
        if a[0] == b[0] && b[0] == c[0] {
            lemma_char_lex_trans(a.drop_first(), b.drop_first(), c.drop_first());
        }
    }
}

/// Three-way lexicographic comparison of two lists of texts.
pub open spec fn parts_lex(a: Seq<Seq<char>>, b: Seq<Seq<char>>) -> int
    decreases a.len(),
{
    if a.len() == 0 {
        if b.len() == 0 {
            0
        } else {
            -1
        }
    } else if b.len() == 0 {
        1
    } else if char_lex(a[0], b[0]) != 0 {
        char_lex(a[0], b[0])
    } else {
        parts_lex(a.drop_first(), b.drop_first())
    }
}

/// `parts_lex` is a total order.
pub proof fn lemma_parts_lex_eq(a: Seq<Seq<char>>, b: Seq<Seq<char>>)
    ensures
        parts_lex(a, b) == 0 <==> a == b,
        parts_lex(a, b) == -parts_lex(b, a),
        -1 <= parts_lex(a, b) <= 1,
    decreases a.len(),
{
    if a.len() > 0 && b.len() > 0 {
        lemma_char_lex_eq(a[0], b[0]);
        lemma_parts_lex_eq(a.drop_first(), b.drop_first());
        if a[0] == b[0] && parts_lex(a.drop_first(), b.drop_first()) == 0 {
            assert(a =~= seq![a[0]] + a.drop_first());
            assert(b =~= seq![b[0]] + b.drop_first());
        }
        if a == b {
            assert(a.drop_first() == b.drop_first());
        }
    } else if a.len() == 0 && b.len() == 0 {
        assert(a =~= b);
    }
}

/// `parts_lex` is transitive.
pub proof fn lemma_parts_lex_trans(a: Seq<Seq<char>>, b: Seq<Seq<char>>, c: Seq<Seq<char>>)
    requires
        parts_lex(a, b) < 0,
        parts_lex(b, c) < 0,
    ensures
        parts_lex(a, c) < 0,
    decreases a.len(),
{
    if a.len() > 0 && b.len() > 0 && c.len() > 0 {
        lemma_char_lex_eq(a[0], b[0]);
        lemma_char_lex_eq(b[0], c[0]);
        lemma_char_lex_eq(a[0], c[0]);
        if char_lex(a[0], b[0]) < 0 && char_lex(b[0], c[0]) < 0 {
            lemma_char_lex_trans(a[0], b[0], c[0]);
        } else if char_lex(a[0], b[0]) == 0 && char_lex(b[0], c[0]) == 0 {
            lemma_parts_lex_trans(a.drop_first(), b.drop_first(), c.drop_first());
        }
    }
}

/// A sort key: a rank, then texts.
pub struct SortKey {
    /// Compared first, smaller first.
    pub rank: u8,
    /// Compared next, lexicographically.
    pub parts: Vec<Vec<char>>,
}

/// The mathematical view of a sort key.
pub open spec fn key_view(k: SortKey) -> (u8, Seq<Seq<char>>) {
    (k.rank, k.parts@.map_values(|p: Vec<char>| p@))
}

/// The views of a list of sort keys.
pub open spec fn keys_view(ks: Seq<SortKey>) -> Seq<(u8, Seq<Seq<char>>)> {
    ks.map_values(|k: SortKey| key_view(k))
}

/// Three-way comparison of two sort keys.
pub open spec fn key_lex(a: (u8, Seq<Seq<char>>), b: (u8, Seq<Seq<char>>)) -> int {
    if a.0 < b.0 {
        -1
    } else if a.0 > b.0 {
        1
    } else {
        parts_lex(a.1, b.1)
    }
}

/// `key_lex` is a total order.
pub proof fn lemma_key_lex(a: (u8, Seq<Seq<char>>), b: (u8, Seq<Seq<char>>), c: (u8, Seq<Seq<char>>))
    ensures
        key_lex(a, b) == 0 <==> a == b,
        key_lex(a, b) == -key_lex(b, a),
        key_lex(a, b) < 0 && key_lex(b, c) <= 0 ==> key_lex(a, c) < 0,
        key_lex(a, b) <= 0 && key_lex(b, c) < 0 ==> key_lex(a, c) < 0,
{
    lemma_parts_lex_eq(a.1, b.1);
    lemma_parts_lex_eq(b.1, c.1);
    lemma_parts_lex_eq(a.1, c.1);
    if a.0 == b.0 && b.0 == c.0 && parts_lex(a.1, b.1) < 0 && parts_lex(b.1, c.1) < 0 {
        lemma_parts_lex_trans(a.1, b.1, c.1);
    }
}

/// Entry `x` comes before entry `y`: a smaller key, or an equal key and an earlier position.
pub open spec fn entry_before(keys: Seq<(u8, Seq<Seq<char>>)>, x: int, y: int) -> bool {
    key_lex(keys[x], keys[y]) < 0 || (key_lex(keys[x], keys[y]) == 0 && x < y)
}

/// `order` lists each position of `keys` once, by key, equal keys in input order.
pub open spec fn is_sorted_order(keys: Seq<(u8, Seq<Seq<char>>)>, order: Seq<usize>) -> bool {
    &&& order.len() == keys.len()
    &&& forall|i: int| 0 <= i < order.len() ==> #[trigger] order[i] < keys.len()
    &&& forall|i: int, j: int|
        0 <= i < j < order.len() ==> entry_before(keys, #[trigger] order[i] as int, #[trigger] order[j] as int)
}

/// Entries are listed once each.
pub proof fn lemma_sorted_order_distinct(keys: Seq<(u8, Seq<Seq<char>>)>, order: Seq<usize>, i: int, j: int)
    requires
        is_sorted_order(keys, order),
        0 <= i < order.len(),
        0 <= j < order.len(),
        i != j,
    ensures
        order[i] != order[j],
{
    lemma_key_lex(keys[order[i] as int], keys[order[i] as int], keys[order[i] as int]);
    if i < j {
        assert(entry_before(keys, order[i] as int, order[j] as int));
    } else {
        assert(entry_before(keys, order[j] as int, order[i] as int));
    }
}

/// Where `x` goes among the sorted positions `o`: before the first entry whose key is greater.
pub open spec fn insert_at(kv: Seq<(u8, Seq<Seq<char>>)>, o: Seq<usize>, x: int) -> int
    decreases o.len(),
{
    if o.len() == 0 {
        0
    } else if key_lex(kv[x], kv[o[0] as int]) < 0 {
        0
    } else {
        1 + insert_at(kv, o.drop_first(), x)
    }
}

/// The first `m` positions of `kv`, sorted by key, equal keys in input order.
pub open spec fn sorted_prefix(kv: Seq<(u8, Seq<Seq<char>>)>, m: nat) -> Seq<usize>
    decreases m,
{
    if m == 0 {
        seq![]
    } else {
        let o = sorted_prefix(kv, (m - 1) as nat);
        o.insert(insert_at(kv, o, m - 1), (m - 1) as usize)
    }
}

/// All positions of `kv`, sorted by key, equal keys in input order.
pub open spec fn sorted_positions(kv: Seq<(u8, Seq<Seq<char>>)>) -> Seq<usize> {
    sorted_prefix(kv, kv.len())
}

proof fn lemma_insert_at(kv: Seq<(u8, Seq<Seq<char>>)>, o: Seq<usize>, x: int, p: int)
    requires
        0 <= p <= o.len(),
        forall|q: int| 0 <= q < p ==> key_lex(kv[x], kv[#[trigger] o[q] as int]) >= 0,
        p < o.len() ==> key_lex(kv[x], kv[o[p] as int]) < 0,
    ensures
        insert_at(kv, o, x) == p,
    decreases p,
{
    if p > 0 {
        let t = o.drop_first();
        assert forall|q: int| 0 <= q < p - 1 implies key_lex(kv[x], kv[#[trigger] t[q] as int]) >= 0 by {
            assert(t[q] == o[q + 1]);
        }
        if p - 1 < t.len() {
            assert(t[p - 1] == o[p]);
        }
        assert(key_lex(kv[x], kv[o[0] as int]) >= 0);
        lemma_insert_at(kv, t, x, p - 1);
    }
}

/// Three-way comparison of two texts.
pub fn compare_chars(a: &Vec<char>, b: &Vec<char>) -> (r: i8)
    ensures
        r == char_lex(a@, b@),
{
    let mut i: usize = 0;
    assert(a@.skip(0) =~= a@);
    assert(b@.skip(0) =~= b@);
    while i < a.len() && i < b.len()
        invariant
            i <= a.len(),
            i <= b.len(),
            char_lex(a@, b@) == char_lex(a@.skip(i as int), b@.skip(i as int)),
        decreases a.len() - i,
    {
        let ghost sa = a@.skip(i as int);
        let ghost sb = b@.skip(i as int);
        assert(sa[0] == a@[i as int]);
        assert(sb[0] == b@[i as int]);
        if a[i] != b[i] {
            if a[i] < b[i] {
                return -1;
            } else {
                return 1;
            }
        }
        assert(sa.drop_first() =~= a@.skip(i + 1));
        assert(sb.drop_first() =~= b@.skip(i + 1));
        i += 1;
    }
    if i < a.len() {
        1
    } else if i < b.len() {
        -1
    } else {
        0
    }
}

/// Three-way comparison of two lists of texts.
pub fn compare_parts(a: &Vec<Vec<char>>, b: &Vec<Vec<char>>) -> (r: i8)
    ensures
        r == parts_lex(a@.map_values(|p: Vec<char>| p@), b@.map_values(|p: Vec<char>| p@)),
{
    let ghost va = a@.map_values(|p: Vec<char>| p@);
    let ghost vb = b@.map_values(|p: Vec<char>| p@);
    let mut i: usize = 0;
    assert(va.skip(0) =~= va);
    assert(vb.skip(0) =~= vb);
    while i < a.len() && i < b.len()
        invariant
            i <= a.len(),
            i <= b.len(),
            va == a@.map_values(|p: Vec<char>| p@),
            vb == b@.map_values(|p: Vec<char>| p@),
            parts_lex(va, vb) == parts_lex(va.skip(i as int), vb.skip(i as int)),
        decreases a.len() - i,
    {
        let ghost sa = va.skip(i as int);
        let ghost sb = vb.skip(i as int);
        assert(sa[0] == a@[i as int]@);
        assert(sb[0] == b@[i as int]@);
        let c = compare_chars(&a[i], &b[i]);
        if c != 0 {
            return c;
        }
        assert(sa.drop_first() =~= va.skip(i + 1));
        assert(sb.drop_first() =~= vb.skip(i + 1));
        i += 1;
    }
    if i < a.len() {
        1
    } else if i < b.len() {
        -1
    } else {
        0
    }
}

/// Three-way comparison of two sort keys.
pub fn compare_keys(a: &SortKey, b: &SortKey) -> (r: i8)
    ensures
        r == key_lex(key_view(*a), key_view(*b)),
{
    if a.rank < b.rank {
        -1
    } else if a.rank > b.rank {
        1
    } else {
        compare_parts(&a.parts, &b.parts)
    }
}

/// The positions of `keys` in sorted order: by key, equal keys in input order.
pub fn sort_order(keys: &Vec<SortKey>) -> (order: Vec<usize>)
    ensures
        order@ == sorted_positions(keys_view(keys@)),
        is_sorted_order(keys_view(keys@), order@),
{
    let ghost kv = keys_view(keys@);
    let mut order: Vec<usize> = Vec::new();
    let n = keys.len();
    let mut idx: usize = 0;
    while idx < n
        invariant
            n == keys.len(),
            kv == keys_view(keys@),
            kv.len() == n,
            idx <= n,
            order.len() == idx,
            order@ == sorted_prefix(kv, idx as nat),
            forall|i: int| 0 <= i < order.len() ==> #[trigger] order@[i] < idx,
            forall|i: int, j: int|
                0 <= i < j < order.len() ==> entry_before(kv, #[trigger] order@[i] as int, #[trigger] order@[j] as int),
        decreases n - idx,
    {
        let mut p: usize = 0;
        let mut found = false;
        while p < order.len() && !found
            invariant
                n == keys.len(),
                kv == keys_view(keys@),
                kv.len() == n,
                idx < n,
                p <= order.len(),
                order.len() == idx,
                forall|i: int| 0 <= i < order.len() ==> #[trigger] order@[i] < idx,
                forall|q: int| 0 <= q < p ==> key_lex(kv[idx as int], kv[#[trigger] order@[q] as int]) >= 0,
                found ==> p < order.len() && key_lex(kv[idx as int], kv[order@[p as int] as int]) < 0,
            decreases 2 * (order.len() - p) + (if found { 0int } else { 1int }),
        {
            assert(kv[order@[p as int] as int] == key_view(keys@[order@[p as int] as int]));
            assert(kv[idx as int] == key_view(keys@[idx as int]));
            let c = compare_keys(&keys[idx], &keys[order[p]]);
            if c < 0 {
                found = true;
            } else {
                p += 1;
            }
        }
        let ghost old_order = order@;
        proof {
            lemma_insert_at(kv, old_order, idx as int, p as int);
        }
        order.insert(p, idx);
        proof {
            let o = order@;
            assert(o =~= old_order.subrange(0, p as int).push(idx).add(old_order.subrange(p as int, old_order.len() as int)));
            assert forall|i: int, j: int| 0 <= i < j < o.len() implies entry_before(kv, #[trigger] o[i] as int, #[trigger] o[j] as int) by {
                if j < p {
                    assert(o[i] == old_order[i] && o[j] == old_order[j]);
                } else if i > p {
                    assert(o[i] == old_order[i - 1] && o[j] == old_order[j - 1]);
                } else if j == p {
                    assert(o[i] == old_order[i]);
                    let a = kv[old_order[i] as int];
                    let b = kv[idx as int];
                    lemma_key_lex(a, b, b);
                } else if i == p {
                    assert(o[j] == old_order[j - 1]);
                    let a = kv[idx as int];
                    let b = kv[old_order[p as int] as int];
                    let c = kv[old_order[j - 1] as int];
                    lemma_key_lex(a, b, c);
                    lemma_key_lex(b, c, c);
                    if j - 1 > p {
                        assert(entry_before(kv, old_order[p as int] as int, old_order[j - 1] as int));
                    }
                } else {
                    assert(o[i] == old_order[i] && o[j] == old_order[j - 1]);
                    assert(i < j - 1 || i == j - 1);
                    if i < j - 1 {
                        assert(entry_before(kv, old_order[i] as int, old_order[j - 1] as int));
                    }
                }
            }
        }
        idx += 1;
    }
    order
}

/// Inserting position `x` where `insert_at` puts it keeps a sorted list of earlier
/// positions sorted.
proof fn lemma_insert_sorted(kv: Seq<(u8, Seq<Seq<char>>)>, o: Seq<usize>, x: int)
    requires
        0 <= x < kv.len(),
        x < usize::MAX,
        forall|i: int| 0 <= i < o.len() ==> #[trigger] o[i] < x,
        forall|i: int, j: int|
            0 <= i < j < o.len() ==> entry_before(kv, #[trigger] o[i] as int, #[trigger] o[j] as int),
    ensures
        ({
            let p = insert_at(kv, o, x);
            let o2 = o.insert(p, x as usize);
            &&& 0 <= p <= o.len()
            &&& forall|i: int, j: int|
                0 <= i < j < o2.len() ==> entry_before(kv, #[trigger] o2[i] as int, #[trigger] o2[j] as int)
        }),
    decreases o.len(),
{
    let p = insert_at(kv, o, x);
    lemma_insert_at_props(kv, o, x);
    let o2 = o.insert(p, x as usize);
    assert forall|i: int, j: int| 0 <= i < j < o2.len() implies entry_before(kv, #[trigger] o2[i] as int, #[trigger] o2[j] as int) by {
        if j < p {
            assert(o2[i] == o[i] && o2[j] == o[j]);
        } else if i > p {
            assert(o2[i] == o[i - 1] && o2[j] == o[j - 1]);
        } else if j == p {
            assert(o2[i] == o[i]);
            let a = kv[o[i] as int];
            let b = kv[x];
            lemma_key_lex(a, b, b);
        } else if i == p {
            assert(o2[j] == o[j - 1]);
            let a = kv[x];
            let b = kv[o[p] as int];
            let c = kv[o[j - 1] as int];
            lemma_key_lex(a, b, c);
            lemma_key_lex(b, c, c);
            if j - 1 > p {
                assert(entry_before(kv, o[p] as int, o[j - 1] as int));
            }
        } else {
            assert(o2[i] == o[i] && o2[j] == o[j - 1]);
            assert(entry_before(kv, o[i] as int, o[j - 1] as int));
        }
    }
}

/// What `insert_at` finds: every earlier entry's key is at most `x`'s, and the
/// entry at the position (if any) has a greater key.
proof fn lemma_insert_at_props(kv: Seq<(u8, Seq<Seq<char>>)>, o: Seq<usize>, x: int)
    ensures
        0 <= insert_at(kv, o, x) <= o.len(),
        forall|q: int| 0 <= q < insert_at(kv, o, x) ==> key_lex(kv[x], kv[#[trigger] o[q] as int]) >= 0,
        insert_at(kv, o, x) < o.len() ==> key_lex(kv[x], kv[o[insert_at(kv, o, x)] as int]) < 0,
    decreases o.len(),
{
    if o.len() > 0 && key_lex(kv[x], kv[o[0] as int]) >= 0 {
        let t = o.drop_first();
        lemma_insert_at_props(kv, t, x);
        assert forall|q: int| 0 <= q < insert_at(kv, o, x) implies key_lex(kv[x], kv[#[trigger] o[q] as int]) >= 0 by {
            if q > 0 {
                assert(o[q] == t[q - 1]);
            }
        }
        if insert_at(kv, o, x) < o.len() {
            assert(o[insert_at(kv, o, x)] == t[insert_at(kv, t, x)]);
        }
    }
}

/// The first `m` positions, sorted, are exactly the positions below `m`, each once,
/// in key order with equal keys in input order.
pub proof fn lemma_sorted_prefix(kv: Seq<(u8, Seq<Seq<char>>)>, m: nat)
    requires
        m <= kv.len(),
        kv.len() < usize::MAX,
    ensures
        sorted_prefix(kv, m).len() == m,
        forall|i: int| 0 <= i < m ==> #[trigger] sorted_prefix(kv, m)[i] < m,
        forall|i: int, j: int|
            0 <= i < j < m ==> entry_before(kv, #[trigger] sorted_prefix(kv, m)[i] as int, #[trigger] sorted_prefix(kv, m)[j] as int),
    decreases m,
{
    if m > 0 {
        let o = sorted_prefix(kv, (m - 1) as nat);
        lemma_sorted_prefix(kv, (m - 1) as nat);
        lemma_insert_sorted(kv, o, m - 1);
        lemma_insert_at_props(kv, o, m - 1);
        let o2 = sorted_prefix(kv, m);
        assert(o2 == o.insert(insert_at(kv, o, m - 1), (m - 1) as usize));
        assert forall|i: int| 0 <= i < m implies #[trigger] o2[i] < m by {
            let p = insert_at(kv, o, m - 1);
            if i < p {
                assert(o2[i] == o[i]);
            } else if i > p {
                assert(o2[i] == o[i - 1]);
            }
        }
    }
}

/// Sorting any keys gives a sorted order: each position once, by key, equal keys
/// in input order.
pub proof fn lemma_sorted_positions(kv: Seq<(u8, Seq<Seq<char>>)>)
    requires
        kv.len() < usize::MAX,
    ensures
        is_sorted_order(kv, sorted_positions(kv)),
{
    lemma_sorted_prefix(kv, kv.len());
}

} // verus!
