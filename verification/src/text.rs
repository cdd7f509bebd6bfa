//! Character-level text utilities used across the library.
use vstd::prelude::*;

verus! {

/// Appends one character to a string.
#[verifier::external_body]
pub(crate) fn push_char(s: &mut String, c: char)
    ensures
        final(s)@ == old(s)@.push(c),
{
    s.push(c);
}

/// Appends a string slice to a string.
pub fn push_str(s: &mut String, t: &str)
    ensures
        final(s)@ == old(s)@ + t@,
{
    s.append(t);
}

/// A string holding the given slice.
pub fn owned(t: &str) -> (r: String)
    ensures
        r@ == t@,
{
    String::from_str(t)
}

/// The characters of a string slice, in order.
pub fn chars_of(s: &str) -> (r: Vec<char>)
    ensures
        r@ == s@,
{
    let mut out: Vec<char> = Vec::new();
    for c in it: s.chars()
        invariant
            out@ == it.seq().take(it.index() as int),
    {
        out.push(c);
    }
    out
}

/// Builds a string from a sequence of characters.
pub fn string_from_chars(cs: &Vec<char>) -> (r: String)
    ensures
        r@ == cs@,
{
    let mut out = String::new();
    let mut i: usize = 0;
    while i < cs.len()
        invariant
            i <= cs.len(),
            out@ == cs@.take(i as int),
        decreases cs.len() - i,
    {
        push_char(&mut out, cs[i]);
        assert(cs@.take(i as int).push(cs@[i as int]) =~= cs@.take(i + 1));
        i += 1;
    }
    assert(cs@.take(cs.len() as int) =~= cs@);
    out
}

/// A copy of a list of strings.
pub fn clone_strings(v: &Vec<String>) -> (r: Vec<String>)
    ensures
        r@ == v@,
{
    let r = v.clone();
    assert forall|i: int| 0 <= i < v.len() implies r@[i] == v@[i] by {
        assert(cloned::<String>(v[i], r[i]));
    }
    assert(r@ =~= v@);
    r
}

/// Whether `needle` occurs in `hay` starting at index `i`.
pub open spec fn match_at(hay: Seq<char>, needle: Seq<char>, i: int) -> bool {
    0 <= i && i + needle.len() <= hay.len() && hay.subrange(i, i + needle.len()) == needle
}

/// Whether `needle` occurs anywhere in `hay`.
pub open spec fn seq_contains(hay: Seq<char>, needle: Seq<char>) -> bool {
    exists|i: int| #[trigger] match_at(hay, needle, i)
}

/// Whether `i` is the first occurrence of `needle` in `hay`.
pub open spec fn first_match(hay: Seq<char>, needle: Seq<char>, i: int) -> bool {
    match_at(hay, needle, i) && forall|j: int| 0 <= j < i ==> !#[trigger] match_at(hay, needle, j)
}

/// The index of the first occurrence of `needle` in `hay`, if any.
pub open spec fn spec_find(hay: Seq<char>, needle: Seq<char>) -> Option<int> {
    if seq_contains(hay, needle) {
        Some(choose|i: int| first_match(hay, needle, i))
    } else {
        None
    }
}

proof fn lemma_first_match_exists(hay: Seq<char>, needle: Seq<char>, k: int)
    requires
        match_at(hay, needle, k),
    ensures
        exists|i: int| first_match(hay, needle, i),
    decreases k,
{
    if exists|j: int| 0 <= j < k && #[trigger] match_at(hay, needle, j) {
        let j = choose|j: int| 0 <= j < k && #[trigger] match_at(hay, needle, j);
        lemma_first_match_exists(hay, needle, j);
    } else {
        assert(first_match(hay, needle, k));
    }
}

/// The first match is unique.
pub proof fn lemma_first_match_unique(hay: Seq<char>, needle: Seq<char>, a: int, b: int)
    requires
        first_match(hay, needle, a),
        first_match(hay, needle, b),
    ensures
        a == b,
{
    if a < b {
        assert(!match_at(hay, needle, a));
    } else if b < a {
        assert(!match_at(hay, needle, b));
    }
}

/// `spec_find` returns the first occurrence.
pub proof fn lemma_spec_find(hay: Seq<char>, needle: Seq<char>)
    ensures
        spec_find(hay, needle) matches Some(i) ==> first_match(hay, needle, i),
        spec_find(hay, needle) is None <==> !seq_contains(hay, needle),
{
    if seq_contains(hay, needle) {
        let k = choose|k: int| #[trigger] match_at(hay, needle, k);
        lemma_first_match_exists(hay, needle, k);
    }
}

/// Whether `needle` occurs in `hay` at position `i` (executable).
pub fn matches_at(hay: &Vec<char>, needle: &Vec<char>, i: usize) -> (r: bool)
    ensures
        r == match_at(hay@, needle@, i as int),
{
    if i > hay.len() || needle.len() > hay.len() - i {
        return false;
    }
    let mut k: usize = 0;
    while k < needle.len()
        invariant
            k <= needle.len(),
            i + needle.len() <= hay.len(),
            forall|t: int| 0 <= t < k ==> hay@[i + t] == needle@[t],
        decreases needle.len() - k,
    {
        if hay[i + k] != needle[k] {
            assert(hay@.subrange(i as int, i + needle.len())[k as int] != needle@[k as int]);
            return false;
        }
        k += 1;
    }
    assert(hay@.subrange(i as int, i + needle.len()) =~= needle@);
    true
}

/// The index of the first occurrence of `needle` in `hay`.
pub fn find(hay: &Vec<char>, needle: &Vec<char>) -> (r: Option<usize>)
    ensures
        r matches Some(i) ==> spec_find(hay@, needle@) == Some(i as int),
        r is None ==> spec_find(hay@, needle@) is None,
{
    proof {
        lemma_spec_find(hay@, needle@);
    }
    if needle.len() > hay.len() {
        assert(!seq_contains(hay@, needle@));
        return None;
    }
    if needle.len() == 0 {
        assert(hay@.subrange(0, 0) =~= needle@);
        assert(first_match(hay@, needle@, 0));
        proof {
            lemma_first_match_unique(hay@, needle@, 0, spec_find(hay@, needle@)->0);
        }
        return Some(0);
    }
    let last = hay.len() - needle.len();
    let mut i: usize = 0;
    while i <= last
        invariant
            last == hay.len() - needle.len(),
            needle.len() > 0,
            i <= last + 1,
            forall|j: int| 0 <= j < i ==> !#[trigger] match_at(hay@, needle@, j),
        decreases last + 1 - i,
    {
        if matches_at(hay, needle, i) {
            assert(first_match(hay@, needle@, i as int));
            proof {
                lemma_first_match_unique(
                    hay@,
                    needle@,
                    i as int,
                    spec_find(hay@, needle@)->0,
                );
            }
            return Some(i);
        }
        i += 1;
    }
    assert(!seq_contains(hay@, needle@));
    None
}

/// Whether `needle` occurs in `hay` (executable).
pub fn contains(hay: &Vec<char>, needle: &str) -> (r: bool)
    ensures
        r == seq_contains(hay@, needle@),
{
    let n = chars_of(needle);
    let f = find(hay, &n);
    proof {
        lemma_spec_find(hay@, needle@);
    }
    f.is_some()
}

pub fn str_eq(a: &str, b: &str) -> (r: bool)
    ensures
        r == (a@ == b@),
{
    let x = chars_of(a);
    let y = chars_of(b);
    if x.len() != y.len() {
        assert(a@.len() != b@.len());
        return false;
    }
    let mut i: usize = 0;
    while i < x.len()
        invariant
            x@ == a@,
            y@ == b@,
            x.len() == y.len(),
            i <= x.len(),
            forall|j: int| 0 <= j < i ==> x@[j] == y@[j],
        decreases x.len() - i,
    {
        if x[i] != y[i] {
            assert(a@[i as int] != b@[i as int]);
            return false;
        }
        i += 1;
    }
    assert(a@ =~= b@);
    true
}

/// ASCII lowercase of one character.
pub open spec fn ascii_lower(c: char) -> char {
    if 'A' <= c && c <= 'Z' {
        ((c as u32) + 32) as char
    } else {
        c
    }
}

/// ASCII lowercase of a string.
pub open spec fn seq_ascii_lower(s: Seq<char>) -> Seq<char> {
    s.map_values(|c: char| ascii_lower(c))
}

/// ASCII lowercase of one character (executable).
pub fn char_ascii_lower(c: char) -> (r: char)
    ensures
        r == ascii_lower(c),
{
    if 'A' <= c && c <= 'Z' {
        let b = c as u32;
        assert(65 <= b <= 90);
        let v: u8 = (b + 32) as u8;
        v as char
    } else {
        c
    }
}

/// ASCII lowercase of a character sequence.
pub fn to_ascii_lower(s: &Vec<char>) -> (r: Vec<char>)
    ensures
        r@ == seq_ascii_lower(s@),
{
    let mut out: Vec<char> = Vec::new();
    let mut i: usize = 0;
    while i < s.len()
        invariant
            i <= s.len(),
            out@ == seq_ascii_lower(s@.take(i as int)),
        decreases s.len() - i,
    {
        out.push(char_ascii_lower(s[i]));
        assert(seq_ascii_lower(s@.take(i + 1)) =~= seq_ascii_lower(s@.take(i as int)).push(
            ascii_lower(s@[i as int]),
        ));
        i += 1;
    }
    assert(s@.take(s.len() as int) =~= s@);
    out
}

/// Unicode `White_Space`, the set that `str::trim` removes.
pub open spec fn is_ws(c: char) -> bool {
    c == '\t' || c == '\n' || c == '\u{0B}' || c == '\u{0C}' || c == '\r' || c == ' '
        || c == '\u{85}' || c == '\u{A0}' || c == '\u{1680}' || ('\u{2000}' <= c && c
        <= '\u{200A}') || c == '\u{2028}' || c == '\u{2029}' || c == '\u{202F}' || c
        == '\u{205F}' || c == '\u{3000}'
}

/// Whether a character is Unicode white space (executable).
pub fn char_is_ws(c: char) -> (r: bool)
    ensures
        r == is_ws(c),
{
    c == '\t' || c == '\n' || c == '\u{0B}' || c == '\u{0C}' || c == '\r' || c == ' ' || c
        == '\u{85}' || c == '\u{A0}' || c == '\u{1680}' || ('\u{2000}' <= c && c <= '\u{200A}')
        || c == '\u{2028}' || c == '\u{2029}' || c == '\u{202F}' || c == '\u{205F}' || c
        == '\u{3000}'
}

/// Number of leading white-space characters.
pub open spec fn lead_ws(s: Seq<char>) -> int
    decreases s.len(),
{
    if s.len() > 0 && is_ws(s[0]) {
        1 + lead_ws(s.drop_first())
    } else {
        0
    }
}

/// Number of trailing white-space characters.
pub open spec fn trail_ws(s: Seq<char>) -> int
    decreases s.len(),
{
    if s.len() > 0 && is_ws(s.last()) {
        1 + trail_ws(s.drop_last())
    } else {
        0
    }
}

/// `s` with leading and trailing white space removed.
pub open spec fn spec_trim(s: Seq<char>) -> Seq<char> {
    let t = s.subrange(lead_ws(s), s.len() as int);
    t.subrange(0, t.len() - trail_ws(t))
}

proof fn lemma_lead_ws(s: Seq<char>, i: int)
    requires
        0 <= i <= s.len(),
        forall|j: int| 0 <= j < i ==> is_ws(#[trigger] s[j]),
        i == s.len() || !is_ws(s[i]),
    ensures
        lead_ws(s) == i,
    decreases i,
{
    if i > 0 {
        let t = s.drop_first();
        assert forall|j: int| 0 <= j < i - 1 implies is_ws(#[trigger] t[j]) by {
            assert(t[j] == s[j + 1]);
        }
        if i < s.len() {
            assert(t[i - 1] == s[i]);
        }
        lemma_lead_ws(t, i - 1);
    }
}

proof fn lemma_trail_ws(s: Seq<char>, i: int)
    requires
        0 <= i <= s.len(),
        forall|j: int| i <= j < s.len() ==> is_ws(#[trigger] s[j]),
        i == 0 || !is_ws(s[i - 1]),
    ensures
        trail_ws(s) == s.len() - i,
    decreases s.len() - i,
{
    if i < s.len() {
        let t = s.drop_last();
        assert forall|j: int| i <= j < t.len() implies is_ws(#[trigger] t[j]) by {
            assert(t[j] == s[j]);
        }
        if i > 0 {
            assert(t[i - 1] == s[i - 1]);
        }
        lemma_trail_ws(t, i);
    }
}

/// `str::trim` on a character sequence.
pub fn trim(s: &Vec<char>) -> (r: Vec<char>)
    ensures
        r@ == spec_trim(s@),
{
    let mut a: usize = 0;
    while a < s.len() && char_is_ws(s[a])
        invariant
            a <= s.len(),
            forall|j: int| 0 <= j < a ==> is_ws(#[trigger] s@[j]),
        decreases s.len() - a,
    {
        a += 1;
    }
    proof {
        lemma_lead_ws(s@, a as int);
    }
    let ghost t = s@.subrange(a as int, s.len() as int);
    let mut b: usize = s.len();
    while b > a && char_is_ws(s[b - 1])
        invariant
            a <= b <= s.len(),
            forall|j: int| b <= j < s.len() ==> is_ws(#[trigger] s@[j]),
        decreases b,
    {
        b -= 1;
    }
    proof {
        assert forall|j: int| b - a <= j < t.len() implies is_ws(#[trigger] t[j]) by {
            assert(t[j] == s@[a + j]);
        }
        if b > a {
            assert(t[b - a - 1] == s@[b - 1]);
        }
        lemma_trail_ws(t, b - a);
    }
    let mut out: Vec<char> = Vec::new();
    let mut k: usize = a;
    while k < b
        invariant
            a <= k <= b <= s.len(),
            out@ == s@.subrange(a as int, k as int),
        decreases b - k,
    {
        out.push(s[k]);
        assert(s@.subrange(a as int, k + 1) =~= s@.subrange(a as int, k as int).push(s@[k as int]));
        k += 1;
    }
    assert(out@ =~= spec_trim(s@));
    out
}

/// `str::trim` on a string.
pub fn trim_str(s: &str) -> (r: String)
    ensures
        r@ == spec_trim(s@),
{
    let cs = chars_of(s);
    let t = trim(&cs);
    string_from_chars(&t)
}

/// Decimal digit character.
pub open spec fn digit_char(d: nat) -> char {
    ((48 + d) as u8) as char
}

/// Decimal representation of a natural number.
pub open spec fn nat_decimal(n: nat) -> Seq<char>
    decreases n,
{
    if n < 10 {
        seq![digit_char(n)]
    } else {
        nat_decimal(n / 10).push(digit_char(n % 10))
    }
}

/// Decimal representation of a `u128`.
pub fn u128_decimal(n: u128) -> (r: String)
    ensures
        r@ == nat_decimal(n as nat),
    decreases n,
{
    if n < 10 {
        let mut s = String::new();
        let d: u8 = (48 + n) as u8;
        push_char(&mut s, d as char);
        assert(s@ =~= seq![digit_char(n as nat)]);
        s
    } else {
        let mut s = u128_decimal(n / 10);
        let d: u8 = (48 + n % 10) as u8;
        push_char(&mut s, d as char);
        s
    }
}

/// Decimal representation of a `usize`.
pub fn usize_decimal(n: usize) -> (r: String)
    ensures
        r@ == nat_decimal(n as nat),
{
    u128_decimal(n as u128)
}

} // verus!

verus! {

/// `{:?}` escaping of one character inside a string literal.
pub open spec fn debug_escape(c: char) -> Seq<char> {
    if c == '"' {
        seq!['\\', '"']
    } else if c == '\\' {
        seq!['\\', '\\']
    } else if c == '\n' {
        seq!['\\', 'n']
    } else if c == '\r' {
        seq!['\\', 'r']
    } else if c == '\t' {
        seq!['\\', 't']
    } else if c == '\0' {
        seq!['\\', '0']
    } else {
        seq![c]
    }
}

/// `{:?}` of a string: quoted, with quotes, backslashes and control characters escaped.
pub open spec fn debug_str(s: Seq<char>) -> Seq<char>
    decreases s.len(),
{
    if s.len() == 0 {
        seq!['"', '"']
    } else {
        let p = debug_str(s.drop_last());
        p.take(p.len() - 1) + debug_escape(s.last()) + seq!['"']
    }
}

/// `{:?}` of a list of strings: `["a", "b"]`.
pub open spec fn debug_list(v: Seq<Seq<char>>) -> Seq<char>
    decreases v.len(),
{
    if v.len() == 0 {
        seq!['[', ']']
    } else if v.len() == 1 {
        seq!['['] + debug_str(v[0]) + seq![']']
    } else {
        let p = debug_list(v.drop_last());
        p.take(p.len() - 1) + seq![',', ' '] + debug_str(v.last()) + seq![']']
    }
}

proof fn lemma_debug_str_shape(s: Seq<char>)
    ensures
        debug_str(s).len() >= 2,
        debug_str(s).last() == '"',
    decreases s.len(),
{
    if s.len() > 0 {
        lemma_debug_str_shape(s.drop_last());
    }
}

proof fn lemma_debug_list_shape(v: Seq<Seq<char>>)
    ensures
        debug_list(v).len() >= 2,
        debug_list(v).last() == ']',
    decreases v.len(),
{
    if v.len() > 1 {
        lemma_debug_list_shape(v.drop_last());
    }
}

fn debug_escape_exec(out: &mut Vec<char>, c: char)
    ensures
        final(out)@ == old(out)@ + debug_escape(c),
{
    if c == '"' {
        out.push('\\');
        out.push('"');
    } else if c == '\\' {
        out.push('\\');
        out.push('\\');
    } else if c == '\n' {
        out.push('\\');
        out.push('n');
    } else if c == '\r' {
        out.push('\\');
        out.push('r');
    } else if c == '\t' {
        out.push('\\');
        out.push('t');
    } else if c == '\0' {
        out.push('\\');
        out.push('0');
    } else {
        out.push(c);
    }
    assert(final(out)@ =~= old(out)@ + debug_escape(c));
}

/// `{:?}` of a string.
pub fn debug_string(s: &str) -> (r: Vec<char>)
    ensures
        r@ == debug_str(s@),
{
    let cs = chars_of(s);
    let mut out: Vec<char> = Vec::new();
    out.push('"');
    let mut i: usize = 0;
    while i < cs.len()
        invariant
            i <= cs.len(),
            cs@ == s@,
            out@ + seq!['"'] == debug_str(s@.take(i as int)),
        decreases cs.len() - i,
    {
        proof {
            lemma_debug_str_shape(s@.take(i as int));
            assert(s@.take(i + 1).drop_last() =~= s@.take(i as int));
        }
        let ghost before = out@;
        debug_escape_exec(&mut out, cs[i]);
        proof {
            let p = debug_str(s@.take(i as int));
            assert(p.take(p.len() - 1) =~= before);
        }
        assert(out@ + seq!['"'] =~= debug_str(s@.take(i + 1)));
        i += 1;
    }
    assert(s@.take(cs.len() as int) =~= s@);
    out.push('"');
    assert(out@ =~= debug_str(s@));
    out
}

/// `{:?}` of a list of strings.
pub fn debug_string_list(v: &Vec<String>) -> (r: String)
    ensures
        r@ == debug_list(v@.map_values(|s: String| s@)),
{
    let ghost vv = v@.map_values(|s: String| s@);
    let mut out: Vec<char> = Vec::new();
    out.push('[');
    let mut i: usize = 0;
    while i < v.len()
        invariant
            i <= v.len(),
            vv == v@.map_values(|s: String| s@),
            out@ + seq![']'] == debug_list(vv.take(i as int)),
            i == 0 ==> out@ == seq!['['],
        decreases v.len() - i,
    {
        proof {
            lemma_debug_list_shape(vv.take(i as int));
            assert(vv.take(i + 1).drop_last() =~= vv.take(i as int));
        }
        let ghost before = out@;
        if i > 0 {
            out.push(',');
            out.push(' ');
        }
        let d = debug_string(v[i].as_str());
        let mut k: usize = 0;
        let ghost mid = out@;
        while k < d.len()
            invariant
                k <= d.len(),
                out@ == mid + d@.take(k as int),
            decreases d.len() - k,
        {
            out.push(d[k]);
            assert(d@.take(k + 1) =~= d@.take(k as int).push(d@[k as int]));
            k += 1;
        }
        assert(d@.take(d.len() as int) =~= d@);
        proof {
            let p = debug_list(vv.take(i as int));
            assert(p.take(p.len() - 1) =~= before);
            if i == 0 {
                assert(vv.take(1)[0] == vv[0]);
            }
        }
        assert(out@ + seq![']'] =~= debug_list(vv.take(i + 1)));
        i += 1;
    }
    assert(vv.take(v.len() as int) =~= vv);
    out.push(']');
    assert(out@ =~= debug_list(vv));
    string_from_chars(&out)
}

} // verus!
