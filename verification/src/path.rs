//! Unix-style paths held as strings: joining, splitting into components,
//! file names and prefixes, with the meaning `std::path` gives them.
use vstd::prelude::*;
use crate::text::{push_char, split_char, split_by, lemma_split_nonempty};

verus! {

/// The views of a sequence of strings.
pub open spec fn views(v: Seq<String>) -> Seq<Seq<char>> {
    v.map_values(|s: String| s@)
}

/// `base` joined with `rel`: an absolute `rel` replaces `base`, otherwise a
/// separator is added unless `base` is empty or already ends with one.
pub open spec fn path_join(base: Seq<char>, rel: Seq<char>) -> Seq<char> {
    if rel.len() > 0 && rel[0] == '/' {
        rel
    } else if base.len() == 0 {
        rel
    } else if base.last() == '/' {
        base + rel
    } else {
        base.push('/') + rel
    }
}

/// The pieces of `s` between separators, empty pieces included.
pub open spec fn pieces(s: Seq<char>) -> Seq<Seq<char>> {
    split_char(s, '/')
}

/// A piece that names something: neither empty nor `.`.
pub open spec fn is_named(p: Seq<char>) -> bool {
    p.len() > 0 && p != seq!['.']
}

/// The named pieces, in order.
pub open spec fn named(ps: Seq<Seq<char>>) -> Seq<Seq<char>>
    decreases ps.len(),
{
    if ps.len() == 0 {
        Seq::empty()
    } else if is_named(ps.last()) {
        named(ps.drop_last()).push(ps.last())
    } else {
        named(ps.drop_last())
    }
}

/// The components of a path: `/` for the root, `.` for a leading current
/// directory, then every named piece.
pub open spec fn components(s: Seq<char>) -> Seq<Seq<char>> {
    if s.len() > 0 && s[0] == '/' {
        seq![seq!['/']] + named(pieces(s))
    } else if pieces(s)[0] == seq!['.'] {
        seq![seq!['.']] + named(pieces(s))
    } else {
        named(pieces(s))
    }
}

/// The final component of a path when it is a name (not the root, `.` or `..`).
pub open spec fn file_name(s: Seq<char>) -> Option<Seq<char>> {
    let c = components(s);
    if c.len() > 0 && c.last() != seq!['/'] && c.last() != seq!['.'] && c.last() != seq!['.', '.'] {
        Some(c.last())
    } else {
        None
    }
}

/// Whether the components of `base` begin the components of `p`.
pub open spec fn starts_with(p: Seq<char>, base: Seq<char>) -> bool {
    components(base).len() <= components(p).len()
        && components(p).subrange(0, components(base).len() as int) == components(base)
}

/// The first component of `p` below `base`, when `p` lies strictly below it.
pub open spec fn first_component_below(p: Seq<char>, base: Seq<char>) -> Option<Seq<char>> {
    if starts_with(p, base) && components(base).len() < components(p).len() {
        Some(components(p)[components(base).len() as int])
    } else {
        None
    }
}

/// Every path has at least one piece.
pub proof fn lemma_pieces_nonempty(s: Seq<char>)
    ensures
        pieces(s).len() >= 1,
{
    lemma_split_nonempty(s, '/');
}

/// Joins two paths (`Path::join`).
pub fn join(base: &str, rel: &str) -> (r: String)
    ensures
        r@ == path_join(base@, rel@),
{
    let rel_len = rel.unicode_len();
    if rel_len > 0 && rel.get_char(0) == '/' {
        return String::from_str(rel);
    }
    let base_len = base.unicode_len();
    let mut s = String::from_str(base);
    if base_len > 0 && base.get_char(base_len - 1) != '/' {
        push_char(&mut s, '/');
    }
    s.append(rel);
    proof {
        if base@.len() > 0 && base@.last() != '/' {
            assert(s@ =~= base@.push('/') + rel@);
        } else {
            assert(s@ =~= base@ + rel@);
        }
    }
    s
}

/// Splits a path at its separators.
pub fn split_pieces(s: &str) -> (r: Vec<String>)
    ensures
        views(r@) == pieces(s@),
{
    split_by(s, '/')
}

fn is_single(p: &str, c: char) -> (b: bool)
    ensures
        b == (p@ == seq![c]),
{
    let n = p.unicode_len();
    if n == 1 && p.get_char(0) == c {
        proof {
            assert(p@ =~= seq![c]);
        }
        true
    } else {
        false
    }
}

fn is_dot(p: &str) -> (b: bool)
    ensures
        b == (p@ == seq!['.']),
{
    is_single(p, '.')
}

fn is_dot_dot(p: &str) -> (b: bool)
    ensures
        b == (p@ == seq!['.', '.']),
{
    let n = p.unicode_len();
    if n == 2 && p.get_char(0) == '.' && p.get_char(1) == '.' {
        proof {
            assert(p@ =~= seq!['.', '.']);
        }
        true
    } else {
        false
    }
}

/// The components of a path (`Path::components`, Unix paths).
pub fn path_components(s: &str) -> (r: Vec<String>)
    ensures
        views(r@) == components(s@),
{
    let ps = split_pieces(s);
    proof {
        lemma_pieces_nonempty(s@);
        assert(ps@[0]@ == pieces(s@)[0]);
    }
    let mut out: Vec<String> = Vec::new();
    let n = s.unicode_len();
    let ghost lead: Seq<Seq<char>>;
    if n > 0 && s.get_char(0) == '/' {
        let mut root = String::new();
        push_char(&mut root, '/');
        out.push(root);
        proof {
            lead = seq![seq!['/']];
        }
    } else if is_dot(ps[0].as_str()) {
        let mut dot = String::new();
        push_char(&mut dot, '.');
        out.push(dot);
        proof {
            lead = seq![seq!['.']];
        }
    } else {
        proof {
            lead = Seq::empty();
        }
    }
    proof {
        assert(views(out@) =~= lead);
    }
    let mut i: usize = 0;
    while i < ps.len()
        invariant
            i <= ps.len(),
            views(ps@) == pieces(s@),
            views(out@) == lead + named(views(ps@).take(i as int)),
        decreases ps.len() - i,
    {
        proof {
            assert(views(ps@).take(i + 1).drop_last() =~= views(ps@).take(i as int));
            assert(views(ps@).take(i + 1).last() == ps@[i as int]@);
        }
        let len = ps[i].as_str().unicode_len();
        if len > 0 && !is_dot(ps[i].as_str()) {
            let ghost before = out@;
            out.push(ps[i].clone());
            proof {
                assert(views(out@) =~= views(before).push(ps@[i as int]@));
            }
        }
        i = i + 1;
    }
    proof {
        assert(views(ps@).take(ps@.len() as int) =~= views(ps@));
        assert(views(out@) =~= components(s@));
    }
    out
}

/// The final component of a path when it is a name (`Path::file_name`).
pub fn path_file_name(s: &str) -> (r: Option<String>)
    ensures
        r matches Some(n) ==> file_name(s@) == Some(n@),
        r is None ==> file_name(s@) is None,
{
    let c = path_components(s);
    let n = c.len();
    if n == 0 {
        return None;
    }
    let last = c[n - 1].as_str();
    proof {
        assert(views(c@).last() == c@[n - 1]@);
    }
    if is_single(last, '/') || is_dot(last) || is_dot_dot(last) {
        None
    } else {
        Some(c[n - 1].clone())
    }
}

/// Whether the components of `base` begin the components of `p` (`Path::starts_with`).
pub fn path_starts_with(p: &str, base: &str) -> (r: bool)
    ensures
        r == starts_with(p@, base@),
{
    let pc = path_components(p);
    let bc = path_components(base);
    if bc.len() > pc.len() {
        return false;
    }
    let mut i: usize = 0;
    while i < bc.len()
        invariant
            bc.len() <= pc.len(),
            i <= bc.len(),
            views(pc@) == components(p@),
            views(bc@) == components(base@),
            views(pc@).subrange(0, i as int) == views(bc@).subrange(0, i as int),
        decreases bc.len() - i,
    {
        if pc[i] != bc[i] {
            proof {
                assert(views(pc@).subrange(0, bc.len() as int)[i as int] == pc@[i as int]@);
                assert(views(bc@)[i as int] == bc@[i as int]@);
            }
            return false;
        }
        proof {
            assert(views(pc@).subrange(0, i + 1) =~= views(pc@).subrange(0, i as int).push(pc@[i as int]@));
            assert(views(bc@).subrange(0, i + 1) =~= views(bc@).subrange(0, i as int).push(bc@[i as int]@));
        }
        i = i + 1;
    }
    proof {
        assert(views(bc@).subrange(0, bc.len() as int) =~= views(bc@));
    }
    true
}

/// Whether two paths have the same components (`Path` equality).
pub fn same_path(a: &str, b: &str) -> (r: bool)
    ensures
        r == (components(a@) == components(b@)),
{
    let r = path_starts_with(a, b) && path_starts_with(b, a);
    proof {
        if r {
            assert(components(a@) =~= components(a@).subrange(0, components(b@).len() as int));
        }
        if components(a@) == components(b@) {
            assert(components(a@) =~= components(a@).subrange(0, components(a@).len() as int));
        }
    }
    r
}

/// The first component of `p` below `base` (the first component of `p.strip_prefix(base)`).
pub fn path_first_component_below(p: &str, base: &str) -> (r: Option<String>)
    ensures
        r matches Some(c) ==> first_component_below(p@, base@) == Some(c@),
        r is None ==> first_component_below(p@, base@) is None,
{
    if !path_starts_with(p, base) {
        return None;
    }
    let pc = path_components(p);
    let bc = path_components(base);
    if bc.len() < pc.len() {
        proof {
            assert(views(pc@)[bc.len() as int] == pc@[bc.len() as int]@);
        }
        Some(pc[bc.len()].clone())
    } else {
        None
    }
}

} // verus!

verus! {

/// The index of the last `c` in `s`.
pub open spec fn last_index_of(s: Seq<char>, c: char) -> Option<int>
    decreases s.len(),
{
    if s.len() == 0 {
        None
    } else if s.last() == c {
        Some(s.len() - 1)
    } else {
        last_index_of(s.drop_last(), c)
    }
}

/// The extension of a path (`Path::extension`): what follows the last `.`
/// of the file name, unless that dot is where the name begins.
pub open spec fn extension(s: Seq<char>) -> Option<Seq<char>> {
    match file_name(s) {
        None => None,
        Some(n) => match last_index_of(n, '.') {
            Some(i) => if i > 0 {
                Some(n.subrange(i + 1, n.len() as int))
            } else {
                None
            },
            None => None,
        },
    }
}

/// The index of the last `c` in `s`, as [`last_index_of`].
pub fn find_last(s: &str, c: char) -> (r: Option<usize>)
    ensures
        r matches Some(i) ==> i < s@.len(),
        match (r, last_index_of(s@, c)) {
            (Some(i), Some(j)) => i as int == j,
            (None, None) => true,
            _ => false,
        },
{
    let mut i: usize = s.unicode_len();
    proof {
        assert(s@.take(i as int) =~= s@);
    }
    while i > 0
        invariant
            i <= s@.len(),
            last_index_of(s@, c) == last_index_of(s@.take(i as int), c),
        decreases i,
    {
        proof {
            assert(s@.take(i as int).drop_last() =~= s@.take(i - 1));
            assert(s@.take(i as int).last() == s@[i - 1]);
        }
        if s.get_char(i - 1) == c {
            return Some(i - 1);
        }
        i = i - 1;
    }
    None
}

/// The extension of a path (`Path::extension`).
pub fn path_extension(s: &str) -> (r: Option<String>)
    ensures
        match (r, extension(s@)) {
            (Some(e), Some(x)) => e@ == x,
            (None, None) => true,
            _ => false,
        },
{
    match path_file_name(s) {
        None => None,
        Some(n) => match find_last(n.as_str(), '.') {
            Some(i) => {
                let len = n.unicode_len();
                if i > 0 {
                    Some(crate::text::substring(n.as_str(), i + 1, len))
                } else {
                    None
                }
            },
            None => None,
        },
    }
}

} // verus!

verus! {

/// Whether `p` is an absolute path.
pub open spec fn is_absolute(p: Seq<char>) -> bool {
    p.len() > 0 && p[0] == '/'
}

/// Joining different relative paths onto one base gives different paths.
pub proof fn lemma_join_injective(base: Seq<char>, a: Seq<char>, b: Seq<char>)
    requires
        !is_absolute(a),
        !is_absolute(b),
        a != b,
    ensures
        path_join(base, a) != path_join(base, b),
{
    let pre = if base.len() == 0 {
        Seq::<char>::empty()
    } else if base.last() == '/' {
        base
    } else {
        base.push('/')
    };
    assert(path_join(base, a) =~= pre + a);
    assert(path_join(base, b) =~= pre + b);
    if pre + a == pre + b {
        assert((pre + a).subrange(pre.len() as int, (pre + a).len() as int) =~= a);
        assert((pre + b).subrange(pre.len() as int, (pre + b).len() as int) =~= b);
    }
}

} // verus!
