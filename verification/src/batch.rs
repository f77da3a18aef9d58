//! The batch driver's planning: which walked candidate paths become export
//! jobs, and the output base path of each. A candidate is selected when it
//! bears the volumetric extension, lies under the source root, and — in the
//! non-recursive mode — is a direct child of the root. Everything else about
//! a candidate (unreadable directory entries, paths outside the root) is
//! skipped on its own without aborting the batch.

use vstd::prelude::*;
use crate::paths::flat_spec;
use crate::paths::has_vdb_extension;
use crate::paths::is_flat;
use crate::paths::join_path;
use crate::paths::join_spec;
use crate::paths::lemma_join_keeps_ext;
use crate::paths::rel_of;
use crate::paths::strip_root;
use crate::paths::vdb_ext_spec;
use crate::paths::with_grid_ext;

verus! {

/// The character views of a list of strings.
pub open spec fn views_of(ns: Seq<String>) -> Seq<Seq<char>> {
    ns.map_values(|s: String| s@)
}

/// One planned per-file job: the source file to decode and the output base
/// path its artifacts are derived from (the source's path mirrored under the
/// output root, extension still in place).
pub struct JobPlan {
    pub source: String,
    pub output_base: String,
}

/// Whether a walked candidate becomes a job: it names a volumetric file, it
/// is a proper descendant of the source root, and in non-recursive mode a
/// direct child of it.
pub open spec fn selected(p: Seq<char>, root: Seq<char>, recursive: bool) -> bool {
    &&& vdb_ext_spec(p)
    &&& rel_of(p, root) is Some
    &&& (recursive || flat_spec(rel_of(p, root)->Some_0))
}

/// The output base path of a selected candidate: its root-relative path
/// mirrored under the output root.
pub open spec fn base_for(p: Seq<char>, root: Seq<char>, out: Seq<char>) -> Seq<char> {
    join_spec(out, rel_of(p, root)->Some_0)
}

/// The planned (source, output base) pairs for a candidate list, in order.
pub open spec fn plan_spec(
    cands: Seq<Seq<char>>,
    root: Seq<char>,
    out: Seq<char>,
    recursive: bool,
) -> Seq<(Seq<char>, Seq<char>)>
    decreases cands.len(),
{
    if cands.len() == 0 {
        Seq::empty()
    } else {
        let rest = plan_spec(cands.drop_last(), root, out, recursive);
        if selected(cands.last(), root, recursive) {
            rest.push((cands.last(), base_for(cands.last(), root, out)))
        } else {
            rest
        }
    }
}

/// A selected candidate's root-relative path is at least as long as the
/// extension suffix: no separator occurs among the last five characters of
/// the path, so the root boundary lies before them.
pub proof fn lemma_selected_rel_long(p: Seq<char>, root: Seq<char>)
    requires
        vdb_ext_spec(p),
        rel_of(p, root) is Some,
    ensures
        rel_of(p, root)->Some_0.len() >= 5,
{
    if root.len() == 0 {
    } else if root.last() == '/' {
        assert(p.take(root.len() as int)[root.len() - 1] == '/');
        assert(p[root.len() - 1] == '/');
    } else {
        assert(p[root.len() as int] == '/');
    }
}

/// Plans the batch: one job per selected candidate, in the candidates'
/// order. Every planned output base still bears the volumetric extension,
/// so each grid's artifact path is defined for it.
pub fn plan_batch(
    candidates: &Vec<String>,
    source_root: &str,
    output_root: &str,
    recursive: bool,
) -> (r: Vec<JobPlan>)
    ensures
        r@.map_values(|j: JobPlan| (j.source@, j.output_base@)) == plan_spec(
            views_of(candidates@),
            source_root@,
            output_root@,
            recursive,
        ),
        forall|i: int|
            0 <= i < r@.len() ==> vdb_ext_spec((#[trigger] r@[i]).output_base@) && selected(
                r@[i].source@,
                source_root@,
                recursive,
            ) && r@[i].output_base@ == base_for(r@[i].source@, source_root@, output_root@),
{
    let mut r: Vec<JobPlan> = Vec::new();
    let n = candidates.len();
    let mut i: usize = 0;
    proof {
        assert(views_of(candidates@).take(0) =~= views_of(candidates@.take(0)));
        assert(views_of(candidates@.take(0)) =~= Seq::<Seq<char>>::empty());
    }
    while i < n
        invariant
            n == candidates@.len(),
            i <= n,
            r@.map_values(|j: JobPlan| (j.source@, j.output_base@)) == plan_spec(
                views_of(candidates@.take(i as int)),
                source_root@,
                output_root@,
                recursive,
            ),
            forall|k: int|
                0 <= k < r@.len() ==> vdb_ext_spec((#[trigger] r@[k]).output_base@) && selected(
                    r@[k].source@,
                    source_root@,
                    recursive,
                ) && r@[k].output_base@ == base_for(r@[k].source@, source_root@, output_root@),
        decreases n - i,
    {
        let p = &candidates[i];
        let take_it: bool;
        let mut base: Option<String> = None;
        if has_vdb_extension(p.as_str()) {
            match strip_root(p.as_str(), source_root) {
                Some(rel) => {
                    if recursive || is_flat(rel.as_str()) {
                        take_it = true;
                        base = Some(join_path(output_root, rel.as_str()));
                    } else {
                        take_it = false;
                    }
                },
                None => {
                    take_it = false;
                },
            }
        } else {
            take_it = false;
        }
        proof {
            assert(views_of(candidates@.take(i + 1)).drop_last() =~= views_of(
                candidates@.take(i as int),
            ));
            assert(views_of(candidates@.take(i + 1)).last() == candidates@[i as int]@);
        }
        if take_it {
            let b = match base {
                Some(b) => b,
                None => {
                    proof {
                        assert(false);
                    }
                    String::new()
                },
            };
            proof {
                lemma_selected_rel_long(p@, source_root@);
                lemma_join_keeps_ext(output_root@, p@, source_root@);
            }
            r.push(JobPlan { source: p.clone(), output_base: b });
            proof {
                assert(r@.map_values(|j: JobPlan| (j.source@, j.output_base@)) =~= plan_spec(
                    views_of(candidates@.take(i + 1)),
                    source_root@,
                    output_root@,
                    recursive,
                ));
            }
        } else {
            proof {
                assert(r@.map_values(|j: JobPlan| (j.source@, j.output_base@)) =~= plan_spec(
                    views_of(candidates@.take(i + 1)),
                    source_root@,
                    output_root@,
                    recursive,
                ));
            }
        }
        i = i + 1;
    }
    proof {
        assert(candidates@.take(n as int) =~= candidates@);
    }
    r
}

/// The two walk modes agree on direct children: a candidate that is a direct
/// child of the root is planned in both modes, with the same output base
/// (which does not depend on the mode), while a deeper descendant is planned
/// only in the recursive mode.
pub proof fn lemma_walk_modes_agree_on_direct_children(p: Seq<char>, root: Seq<char>)
    ensures
        selected(p, root, false) ==> selected(p, root, true),
        selected(p, root, true) && flat_spec(rel_of(p, root)->Some_0) ==> selected(p, root, false),
        selected(p, root, true) && !flat_spec(rel_of(p, root)->Some_0) ==> !selected(
            p,
            root,
            false,
        ),
{
}

} // verus!
