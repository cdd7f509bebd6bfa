//! Path handling on `/`-separated path strings.
//!
//! A path is split into components the way Unix paths are: a leading `/` is
//! the root, empty segments and `.` segments are dropped (a leading `.` is kept
//! as the current directory), and `..` is the parent directory.
use vstd::prelude::*;
use crate::text::{chars_of, push_char, push_str, string_from_chars, owned};

verus! {

/// A path component (mathematical view).
pub enum Comp {
    /// The root `/`.
    Root,
    /// A leading `.`.
    Cur,
    /// `..`.
    Parent,
    /// Any other segment.
    Normal(Seq<char>),
}

/// A path component.
#[derive(Debug)]
pub enum PathComp {
    /// The root `/`.
    Root,
    /// A leading `.`.
    Cur,
    /// `..`.
    Parent,
    /// Any other segment.
    Normal(Vec<char>),
}

impl View for PathComp {
    type V = Comp;

    open spec fn view(&self) -> Comp {
        match self {
            PathComp::Root => Comp::Root,
            PathComp::Cur => Comp::Cur,
            PathComp::Parent => Comp::Parent,
            PathComp::Normal(v) => Comp::Normal(v@),
        }
    }
}

/// Views of a list of components.
pub open spec fn comps_view(v: Seq<PathComp>) -> Seq<Comp> {
    v.map_values(|c: PathComp| c@)
}

/// Splitting state after reading `s`: finished segments and the current one.
pub open spec fn seg_fold(s: Seq<char>) -> (Seq<Seq<char>>, Seq<char>)
    decreases s.len(),
{
    if s.len() == 0 {
        (seq![], seq![])
    } else {
        let (done, cur) = seg_fold(s.drop_last());
        if s.last() == '/' {
            (done.push(cur), seq![])
        } else {
            (done, cur.push(s.last()))
        }
    }
}

/// The `/`-separated segments of `s` (as `str::split('/')`).
pub open spec fn segments(s: Seq<char>) -> Seq<Seq<char>> {
    seg_fold(s).0.push(seg_fold(s).1)
}

/// The component a segment stands for, if any.
pub open spec fn comp_of_seg(seg: Seq<char>) -> Option<Comp> {
    if seg.len() == 0 || seg == seq!['.'] {
        None
    } else if seg == seq!['.', '.'] {
        Some(Comp::Parent)
    } else {
        Some(Comp::Normal(seg))
    }
}

/// Components of a list of segments.
pub open spec fn segs_comps(segs: Seq<Seq<char>>) -> Seq<Comp>
    decreases segs.len(),
{
    if segs.len() == 0 {
        seq![]
    } else {
        let p = segs_comps(segs.drop_last());
        match comp_of_seg(segs.last()) {
            Some(c) => p.push(c),
            None => p,
        }
    }
}

/// Whether a path string is absolute.
pub open spec fn is_absolute(s: Seq<char>) -> bool {
    s.len() > 0 && s[0] == '/'
}

/// The components of a path.
pub open spec fn spec_components(s: Seq<char>) -> Seq<Comp> {
    let segs = segments(s);
    if is_absolute(s) {
        seq![Comp::Root] + segs_comps(segs)
    } else if segs[0] == seq!['.'] {
        seq![Comp::Cur] + segs_comps(segs.drop_first())
    } else {
        segs_comps(segs)
    }
}

fn seg_to_comp(seg: &Vec<char>) -> (r: Option<PathComp>)
    ensures
        match r {
            Some(c) => comp_of_seg(seg@) == Some(c@),
            None => comp_of_seg(seg@) is None,
        },
{
    if seg.len() == 0 || (seg.len() == 1 && seg[0] == '.') {
        if seg.len() == 1 {
            assert(seg@ =~= seq!['.']);
        }
        None
    } else if seg.len() == 2 && seg[0] == '.' && seg[1] == '.' {
        assert(seg@ =~= seq!['.', '.']);
        Some(PathComp::Parent)
    } else {
        assert(seg@ != seq!['.']);
        assert(seg@ != seq!['.', '.']);
        let mut copy: Vec<char> = Vec::new();
        let mut i: usize = 0;
        while i < seg.len()
            invariant
                i <= seg.len(),
                copy@ == seg@.take(i as int),
            decreases seg.len() - i,
        {
            copy.push(seg[i]);
            assert(seg@.take(i + 1) =~= seg@.take(i as int).push(seg@[i as int]));
            i += 1;
        }
        assert(seg@.take(seg.len() as int) =~= seg@);
        Some(PathComp::Normal(copy))
    }
}

/// The segments of a path string.
fn split_segments(s: &Vec<char>) -> (r: Vec<Vec<char>>)
    ensures
        r@.map_values(|v: Vec<char>| v@) == segments(s@),
{
    let mut done: Vec<Vec<char>> = Vec::new();
    let mut cur: Vec<char> = Vec::new();
    let mut i: usize = 0;
    while i < s.len()
        invariant
            i <= s.len(),
            done@.map_values(|v: Vec<char>| v@) == seg_fold(s@.take(i as int)).0,
            cur@ == seg_fold(s@.take(i as int)).1,
        decreases s.len() - i,
    {
        assert(s@.take(i + 1).drop_last() =~= s@.take(i as int));
        let c = s[i];
        if c == '/' {
            let finished = cur;
            done.push(finished);
            cur = Vec::new();
            assert(done@.map_values(|v: Vec<char>| v@) =~= seg_fold(s@.take(i + 1)).0);
        } else {
            cur.push(c);
        }
        i += 1;
    }
    assert(s@.take(s.len() as int) =~= s@);
    done.push(cur);
    assert(done@.map_values(|v: Vec<char>| v@) =~= segments(s@));
    done
}

/// The components of a path string.
pub fn path_components(s: &str) -> (r: Vec<PathComp>)
    ensures
        comps_view(r@) == spec_components(s@),
{
    let cs = chars_of(s);
    let segs = split_segments(&cs);
    let ghost sv = segs@.map_values(|v: Vec<char>| v@);
    let mut out: Vec<PathComp> = Vec::new();
    let start: usize;
    let ghost head: Seq<Comp>;
    assert(sv.len() >= 1);
    assert(segs@.len() == sv.len());
    assert(sv[0] == segs@[0]@);
    if cs.len() > 0 && cs[0] == '/' {
        out.push(PathComp::Root);
        start = 0;
        proof {
            head = seq![Comp::Root];
        }
    } else if segs[0].len() == 1 && segs[0][0] == '.' {
        assert(segs@[0]@ =~= seq!['.']);
        out.push(PathComp::Cur);
        start = 1;
        proof {
            head = seq![Comp::Cur];
        }
    } else {
        proof {
            if segs@[0]@.len() == 1 {
                assert(segs@[0]@[0] != '.');
                assert(segs@[0]@ != seq!['.']);
            } else {
                assert(segs@[0]@.len() != seq!['.'].len());
            }
            assert(sv[0] != seq!['.']);
        }
        start = 0;
        proof {
            head = seq![];
        }
    }
    assert(comps_view(out@) =~= head);
    let mut k: usize = start;
    while k < segs.len()
        invariant
            start <= k <= segs.len(),
            sv == segs@.map_values(|v: Vec<char>| v@),
            comps_view(out@) == head + segs_comps(sv.subrange(start as int, k as int)),
        decreases segs.len() - k,
    {
        assert(sv.subrange(start as int, k + 1).drop_last() =~= sv.subrange(
            start as int,
            k as int,
        ));
        assert(sv.subrange(start as int, k + 1).last() == segs@[k as int]@);
        let ghost before = comps_view(out@);
        match seg_to_comp(&segs[k]) {
            Some(c) => {
                out.push(c);
                assert(comps_view(out@) =~= before.push(c@));
                assert(comps_view(out@) =~= head + segs_comps(sv.subrange(start as int, k + 1)));
            },
            None => {
                assert(comps_view(out@) =~= head + segs_comps(sv.subrange(start as int, k + 1)));
            },
        }
        k += 1;
    }
    assert(sv.subrange(start as int, segs.len() as int) =~= if start == 0 {
        sv
    } else {
        sv.drop_first()
    });
    assert(comps_view(out@) =~= spec_components(s@));
    out
}

/// Keep only normal and parent components (`./foo` becomes `foo`, root is dropped).
pub open spec fn norm_comps(c: Seq<Comp>) -> Seq<Comp>
    decreases c.len(),
{
    if c.len() == 0 {
        seq![]
    } else {
        let p = norm_comps(c.drop_last());
        match c.last() {
            Comp::Normal(x) => p.push(Comp::Normal(x)),
            Comp::Parent => p.push(Comp::Parent),
            _ => p,
        }
    }
}

fn clone_comp(c: &PathComp) -> (r: PathComp)
    ensures
        r@ == c@,
{
    match c {
        PathComp::Root => PathComp::Root,
        PathComp::Cur => PathComp::Cur,
        PathComp::Parent => PathComp::Parent,
        PathComp::Normal(v) => PathComp::Normal(v.clone()),
    }
}

/// Normalize a relative path: drop `.` and root components, keep names and `..`.
pub fn normalize_rel(p: &str) -> (r: Vec<PathComp>)
    ensures
        comps_view(r@) == norm_comps(spec_components(p@)),
{
    let comps = path_components(p);
    let ghost cv = comps_view(comps@);
    let mut out: Vec<PathComp> = Vec::new();
    let mut i: usize = 0;
    while i < comps.len()
        invariant
            i <= comps.len(),
            cv == comps_view(comps@),
            comps_view(out@) == norm_comps(cv.take(i as int)),
        decreases comps.len() - i,
    {
        assert(cv.take(i + 1).drop_last() =~= cv.take(i as int));
        assert(cv.take(i + 1).last() == comps@[i as int]@);
        let ghost before = comps_view(out@);
        match &comps[i] {
            PathComp::Normal(_) | PathComp::Parent => {
                let c = clone_comp(&comps[i]);
                out.push(c);
                assert(comps_view(out@) =~= before.push(cv[i as int]));
            },
            _ => {},
        }
        assert(comps_view(out@) =~= norm_comps(cv.take(i + 1)));
        i += 1;
    }
    assert(cv.take(comps.len() as int) =~= cv);
    out
}

fn chars_eq(x: &Vec<char>, y: &Vec<char>) -> (r: bool)
    ensures
        r == (x@ == y@),
{
    if x.len() != y.len() {
        assert(x@.len() != y@.len());
        return false;
    }
    let mut i: usize = 0;
    while i < x.len()
        invariant
            x.len() == y.len(),
            i <= x.len(),
            forall|j: int| 0 <= j < i ==> x@[j] == y@[j],
        decreases x.len() - i,
    {
        if x[i] != y[i] {
            assert(x@[i as int] != y@[i as int]);
            return false;
        }
        i += 1;
    }
    assert(x@ =~= y@);
    true
}

fn comp_eq(a: &PathComp, b: &PathComp) -> (r: bool)
    ensures
        r == (a@ == b@),
{
    match a {
        PathComp::Root => matches!(b, PathComp::Root),
        PathComp::Cur => matches!(b, PathComp::Cur),
        PathComp::Parent => matches!(b, PathComp::Parent),
        PathComp::Normal(x) => match b {
            PathComp::Normal(y) => chars_eq(x, y),
            _ => false,
        },
    }
}

/// Whether the components of `root` are a prefix of those of `path`.
pub open spec fn comps_prefix(root: Seq<Comp>, path: Seq<Comp>) -> bool {
    root.len() <= path.len() && path.take(root.len() as int) == root
}

/// Whether `path` lies under `root` (component-wise prefix).
pub fn is_under(path: &Vec<PathComp>, root: &Vec<PathComp>) -> (r: bool)
    ensures
        r == comps_prefix(comps_view(root@), comps_view(path@)),
{
    if root.len() > path.len() {
        return false;
    }
    let mut i: usize = 0;
    while i < root.len()
        invariant
            root.len() <= path.len(),
            i <= root.len(),
            forall|j: int| 0 <= j < i ==> path@[j]@ == root@[j]@,
        decreases root.len() - i,
    {
        if !comp_eq(&path[i], &root[i]) {
            assert(comps_view(path@).take(root.len() as int)[i as int] != comps_view(root@)[i as int]);
            return false;
        }
        i += 1;
    }
    assert(comps_view(path@).take(root.len() as int) =~= comps_view(root@));
    true
}

/// The components of `path` relative to `base`, when `base` is a prefix of `path`.
pub fn path_relative_to(path: &str, base: &str) -> (r: Option<Vec<PathComp>>)
    ensures
        r matches Some(v) ==> comps_prefix(spec_components(base@), spec_components(path@))
            && comps_view(v@) == spec_components(path@).skip(spec_components(base@).len() as int),
        r is None ==> !comps_prefix(spec_components(base@), spec_components(path@)),
{
    let p = path_components(path);
    let b = path_components(base);
    if !is_under(&p, &b) {
        return None;
    }
    let ghost pv = comps_view(p@);
    let mut out: Vec<PathComp> = Vec::new();
    let mut i: usize = b.len();
    while i < p.len()
        invariant
            b.len() <= i <= p.len(),
            pv == comps_view(p@),
            comps_view(out@) == pv.subrange(b.len() as int, i as int),
        decreases p.len() - i,
    {
        let ghost before = comps_view(out@);
        let c = clone_comp(&p[i]);
        out.push(c);
        assert(comps_view(out@) =~= before.push(pv[i as int]));
        assert(comps_view(out@) =~= pv.subrange(b.len() as int, i + 1));
        i += 1;
    }
    assert(pv.subrange(b.len() as int, p.len() as int) =~= pv.skip(b.len() as int));
    Some(out)
}

/// The text of a component sequence joined with `/` (a leading root gives a leading `/`).
pub open spec fn comp_text(c: Comp) -> Seq<char> {
    match c {
        Comp::Root => seq![],
        Comp::Cur => seq!['.'],
        Comp::Parent => seq!['.', '.'],
        Comp::Normal(x) => x,
    }
}

/// Components joined by `/`.
pub open spec fn join_comps(c: Seq<Comp>) -> Seq<char>
    decreases c.len(),
{
    if c.len() == 0 {
        seq![]
    } else if c.len() == 1 {
        match c[0] {
            Comp::Root => seq!['/'],
            _ => comp_text(c[0]),
        }
    } else {
        let p = join_comps(c.drop_last());
        if c.len() == 2 && c[0] == Comp::Root {
            p + comp_text(c.last())
        } else {
            p + seq!['/'] + comp_text(c.last())
        }
    }
}

/// Components joined back into a path string.
pub fn join_components(c: &Vec<PathComp>) -> (r: String)
    ensures
        r@ == join_comps(comps_view(c@)),
{
    let ghost cv = comps_view(c@);
    let mut out = String::new();
    let mut i: usize = 0;
    while i < c.len()
        invariant
            i <= c.len(),
            cv == comps_view(c@),
            out@ == join_comps(cv.take(i as int)),
        decreases c.len() - i,
    {
        assert(cv.take(i + 1).drop_last() =~= cv.take(i as int));
        assert(cv.take(i + 1).last() == c@[i as int]@);
        if i == 0 {
            match &c[0] {
                PathComp::Root => push_char(&mut out, '/'),
                PathComp::Cur => push_char(&mut out, '.'),
                PathComp::Parent => {
                    push_char(&mut out, '.');
                    push_char(&mut out, '.');
                },
                PathComp::Normal(x) => {
                    let t = string_from_chars(x);
                    push_str(&mut out, t.as_str());
                },
            }
        } else {
            let after_root = i == 1 && matches!(c[0], PathComp::Root);
            if !after_root {
                push_char(&mut out, '/');
            }
            match &c[i] {
                PathComp::Root => {},
                PathComp::Cur => push_char(&mut out, '.'),
                PathComp::Parent => {
                    push_char(&mut out, '.');
                    push_char(&mut out, '.');
                },
                PathComp::Normal(x) => {
                    let t = string_from_chars(x);
                    push_str(&mut out, t.as_str());
                },
            }
        }
        assert(out@ =~= join_comps(cv.take(i + 1)));
        i += 1;
    }
    assert(cv.take(c.len() as int) =~= cv);
    out
}

/// `base` joined with `p` (`p` replaces `base` when absolute).
pub open spec fn spec_join(base: Seq<char>, p: Seq<char>) -> Seq<char> {
    if is_absolute(p) {
        p
    } else if base.len() == 0 {
        p
    } else if base.last() == '/' {
        base + p
    } else {
        base + seq!['/'] + p
    }
}

/// `base` joined with `p` (`p` replaces `base` when absolute).
pub fn join_path(base: &str, p: &str) -> (r: String)
    ensures
        r@ == spec_join(base@, p@),
{
    let pc = chars_of(p);
    let bc = chars_of(base);
    if pc.len() > 0 && pc[0] == '/' {
        return owned(p);
    }
    if bc.len() == 0 {
        return owned(p);
    }
    let mut out = owned(base);
    if bc[bc.len() - 1] != '/' {
        push_char(&mut out, '/');
    }
    push_str(&mut out, p);
    out
}

/// Resolve the artifacts directory against the workspace root.
pub fn resolve_artifacts_dir(workspace_root: &str, artifacts_dir: &str) -> (r: String)
    ensures
        r@ == spec_join(workspace_root@, artifacts_dir@),
{
    join_path(workspace_root, artifacts_dir)
}

} // verus!
