//! The library's laws: properties that relate several of its functions,
//! stated over the same spec functions their contracts use.

use vstd::prelude::*;
use crate::artifact::artifact_text;
use crate::artifact::header_text;
use crate::artifact::rows_text;
use crate::batch::plan_spec;
use crate::entry::VoxelEntry;
use crate::job::grid_export_ok;
use crate::job::GridExport;
use crate::paths::vdb_ext_spec;
use crate::paths::with_grid_ext;

verus! {

/// Replacing the extension is injective in the replacement text: two grid
/// names that yield the same artifact path under one output base are the
/// same name.
pub proof fn lemma_with_grid_ext_injective(base: Seq<char>, n1: Seq<char>, n2: Seq<char>)
    requires
        vdb_ext_spec(base),
        with_grid_ext(base, n1) == with_grid_ext(base, n2),
    ensures
        n1 == n2,
{
    reveal_strlit(".csv");
    let prefix = base.take(base.len() - 3);
    assert(".csv"@.len() == 4);
    assert(with_grid_ext(base, n1).len() == prefix.len() + n1.len() + 4);
    assert(with_grid_ext(base, n2).len() == prefix.len() + n2.len() + 4);
    assert(n1.len() == n2.len());
    assert forall|i: int| 0 <= i < n1.len() implies n1[i] == n2[i] by {
        assert(with_grid_ext(base, n1)[prefix.len() + i] == n1[i]);
        assert(with_grid_ext(base, n2)[prefix.len() + i] == n2[i]);
    }
    assert(n1 =~= n2);
}

/// For one source file, the artifacts planned and the grid names listed
/// correspond exactly: a grid name is in the file's list if and only if the
/// artifact path carrying that name is among the planned primary paths. (A
/// primary path that cannot be created is retried under the fallback path
/// carrying the grid's list index instead, which `plan_grid_outputs` pins
/// alongside each primary path.)
pub proof fn lemma_artifacts_match_grid_names(
    names: Seq<Seq<char>>,
    outputs: Seq<(Seq<char>, Seq<char>)>,
    base: Seq<char>,
)
    requires
        vdb_ext_spec(base),
        outputs.len() == names.len(),
        forall|i: int|
            0 <= i < names.len() ==> (#[trigger] outputs[i]).0 == with_grid_ext(base, names[i]),
    ensures
        forall|n: Seq<char>|
            #[trigger] names.contains(n) <==> outputs.map_values(
                |o: (Seq<char>, Seq<char>)| o.0,
            ).contains(with_grid_ext(base, n)),
{
    let primaries = outputs.map_values(|o: (Seq<char>, Seq<char>)| o.0);
    assert forall|n: Seq<char>| #[trigger]
        names.contains(n) implies primaries.contains(with_grid_ext(base, n)) by {
        let i = choose|i: int| 0 <= i < names.len() && names[i] == n;
        assert(primaries[i] == with_grid_ext(base, n));
    }
    assert forall|n: Seq<char>|
        primaries.contains(with_grid_ext(base, n)) implies #[trigger] names.contains(n) by {
        let i = choose|i: int| 0 <= i < primaries.len() && primaries[i] == with_grid_ext(base, n);
        assert(outputs[i].0 == with_grid_ext(base, names[i]));
        lemma_with_grid_ext_injective(base, names[i], n);
        assert(names[i] == n);
    }
}

/// Running the export twice over the same inputs plans the same paths and
/// renders byte-identical content: the whole per-grid outcome is a function
/// of the decoded entries, the output base and the grid's name and index
/// alone.
pub proof fn lemma_repeated_export_identical(
    g1: GridExport,
    g2: GridExport,
    decoded: Option<Seq<VoxelEntry>>,
    base: Seq<char>,
    name: Seq<char>,
    index: int,
)
    requires
        grid_export_ok(g1, decoded, base, name, index),
        grid_export_ok(g2, decoded, base, name, index),
    ensures
        g1.primary_path@ == g2.primary_path@,
        g1.fallback_path@ == g2.fallback_path@,
        g1.content is Some <==> g2.content is Some,
        g1.content matches Some(c1) ==> (g2.content matches Some(c2) && c1@ == c2@),
{
}

/// Planning the batch twice over the same candidates, roots and mode selects
/// the same source files and the same output bases, in the same order: the
/// plan is a function of those inputs alone.
pub proof fn lemma_repeated_plan_identical(
    m1: Seq<(Seq<char>, Seq<char>)>,
    m2: Seq<(Seq<char>, Seq<char>)>,
    cands: Seq<Seq<char>>,
    root: Seq<char>,
    out: Seq<char>,
    recursive: bool,
)
    requires
        m1 == plan_spec(cands, root, out, recursive),
        m2 == plan_spec(cands, root, out, recursive),
    ensures
        m1 == m2,
{
}

/// A grid with no voxel entries yields an artifact holding exactly the
/// header line and nothing else.
pub proof fn lemma_empty_grid_artifact()
    ensures
        artifact_text(Seq::<VoxelEntry>::empty()) == header_text(),
{
    assert(rows_text(Seq::<VoxelEntry>::empty()) =~= Seq::<char>::empty());
    assert(artifact_text(Seq::<VoxelEntry>::empty()) =~= header_text());
}

} // verus!
