//! The library's path model: paths are strings whose components are
//! separated by '/'. It covers what the pipeline computes from paths —
//! recognising candidate files by their extension, taking a path relative to
//! the source root, joining it under the output root, and replacing the
//! extension with a grid's name for the output artifact.

use vstd::prelude::*;
use vstd::string::StrSliceExecFns;
use vstd::string::StringExecFns;
use crate::textfmt::dec_nat;
use crate::textfmt::nat_text;

verus! {

/// Whether `p` names a volumetric container file: its last component ends in
/// `.vdb` with a non-empty stem, so the dot before `vdb` is the component's
/// extension dot.
pub open spec fn vdb_ext_spec(p: Seq<char>) -> bool {
    &&& p.len() >= 5
    &&& p[p.len() - 5] != '/'
    &&& p[p.len() - 4] == '.'
    &&& p[p.len() - 3] == 'v'
    &&& p[p.len() - 2] == 'd'
    &&& p[p.len() - 1] == 'b'
}

/// Whether the path string names a volumetric container file.
pub fn has_vdb_extension(p: &str) -> (r: bool)
    ensures
        r == vdb_ext_spec(p@),
{
    let n = p.unicode_len();
    if n < 5 {
        return false;
    }
    p.get_char(n - 5) != '/' && p.get_char(n - 4) == '.' && p.get_char(n - 3) == 'v' && p.get_char(
        n - 2,
    ) == 'd' && p.get_char(n - 1) == 'b'
}

/// The output path for one grid: the `vdb` extension of `base` is replaced
/// by the grid's name joined with `csv`, keeping the extension dot.
pub open spec fn with_grid_ext(base: Seq<char>, name: Seq<char>) -> Seq<char>
    recommends
        vdb_ext_spec(base),
{
    base.take(base.len() - 3) + name + ".csv"@
}

/// Builds the output artifact path for a grid name (or any replacement text,
/// such as a fallback index).
pub fn grid_output_path(base: &str, name: &str) -> (r: String)
    requires
        vdb_ext_spec(base@),
    ensures
        r@ == with_grid_ext(base@, name@),
{
    let n = base.unicode_len();
    let prefix = base.substring_char(0, n - 3);
    let mut r = String::from_str(prefix);
    r.append(name);
    r.append(".csv");
    proof {
        assert(r@ =~= with_grid_ext(base@, name@));
    }
    r
}

/// The fallback output path for the grid at `index` in its file's grid list:
/// the grid's list position replaces the grid name.
pub fn fallback_output_path(base: &str, index: usize) -> (r: String)
    requires
        vdb_ext_spec(base@),
    ensures
        r@ == with_grid_ext(base@, dec_nat(index as nat)),
{
    let text = nat_text(index as u64);
    grid_output_path(base, text.as_str())
}

/// `p` joined under the root `a`: a separator is added unless `a` is empty
/// or already ends with one.
pub open spec fn join_spec(a: Seq<char>, b: Seq<char>) -> Seq<char> {
    if a.len() == 0 {
        b
    } else if a.last() == '/' {
        a + b
    } else {
        a + seq!['/'] + b
    }
}

/// Joins a relative path under a root path.
pub fn join_path(a: &str, b: &str) -> (r: String)
    ensures
        r@ == join_spec(a@, b@),
{
    let n = a.unicode_len();
    if n == 0 {
        let r = String::from_str(b);
        return r;
    }
    let mut r = String::from_str(a);
    if a.get_char(n - 1) != '/' {
        r.append("/");
    }
    r.append(b);
    proof {
        reveal_strlit("/");
        assert(r@ =~= join_spec(a@, b@));
    }
    r
}

/// The path of `p` relative to the directory `root`: `Some(rel)` when `p` is
/// a proper descendant of `root` (`root` then being a strict prefix followed
/// by a separator), `None` otherwise — in particular for `p == root` and for
/// any path outside the root.
pub open spec fn rel_of(p: Seq<char>, root: Seq<char>) -> Option<Seq<char>> {
    if root.len() == 0 {
        Some(p)
    } else if p.len() > root.len() && p.take(root.len() as int) == root {
        if root.last() == '/' {
            Some(p.skip(root.len() as int))
        } else if p[root.len() as int] == '/' {
            Some(p.skip(root.len() + 1int))
        } else {
            None
        }
    } else {
        None
    }
}

/// Computes the path of `p` relative to `root`.
pub fn strip_root(p: &str, root: &str) -> (r: Option<String>)
    ensures
        r is Some <==> rel_of(p@, root@) is Some,
        r matches Some(s) ==> Some(s@) == rel_of(p@, root@),
{
    let np = p.unicode_len();
    let nr = root.unicode_len();
    if nr == 0 {
        return Some(String::from_str(p));
    }
    if np <= nr {
        return None;
    }
    let mut i: usize = 0;
    while i < nr
        invariant
            nr <= np,
            np == p@.len(),
            nr == root@.len(),
            i <= nr,
            forall|j: int| 0 <= j < i ==> p@[j] == root@[j],
        decreases nr - i,
    {
        if p.get_char(i) != root.get_char(i) {
            proof {
                assert(p@.take(nr as int)[i as int] != root@[i as int]);
            }
            return None;
        }
        i = i + 1;
    }
    proof {
        assert(p@.take(nr as int) =~= root@);
    }
    if root.get_char(nr - 1) == '/' {
        let rel = p.substring_char(nr, np);
        return Some(String::from_str(rel));
    }
    if p.get_char(nr) == '/' {
        let rel = p.substring_char(nr + 1, np);
        return Some(String::from_str(rel));
    }
    None
}

/// Whether `rel` names a direct child of its root: no separator occurs in it.
pub open spec fn flat_spec(rel: Seq<char>) -> bool {
    forall|i: int| 0 <= i < rel.len() ==> rel[i] != '/'
}

/// Whether the relative path names a direct child of its root.
pub fn is_flat(rel: &str) -> (r: bool)
    ensures
        r == flat_spec(rel@),
{
    let n = rel.unicode_len();
    let mut i: usize = 0;
    while i < n
        invariant
            n == rel@.len(),
            i <= n,
            forall|j: int| 0 <= j < i ==> rel@[j] != '/',
        decreases n - i,
    {
        if rel.get_char(i) == '/' {
            return false;
        }
        i = i + 1;
    }
    true
}

/// A candidate's extension survives both relativisation and joining: the
/// output base path still ends in `.vdb`, so artifact paths are defined for
/// it.
pub proof fn lemma_join_keeps_ext(out: Seq<char>, p: Seq<char>, root: Seq<char>)
    requires
        vdb_ext_spec(p),
        rel_of(p, root) is Some,
        rel_of(p, root)->Some_0.len() >= 5,
    ensures
        vdb_ext_spec(join_spec(out, rel_of(p, root)->Some_0)),
{
    let rel = rel_of(p, root)->Some_0;
    assert(rel[rel.len() - 5] == p[p.len() - 5]);
    assert(rel[rel.len() - 4] == p[p.len() - 4]);
    assert(rel[rel.len() - 3] == p[p.len() - 3]);
    assert(rel[rel.len() - 2] == p[p.len() - 2]);
    assert(rel[rel.len() - 1] == p[p.len() - 1]);
}

} // verus!
