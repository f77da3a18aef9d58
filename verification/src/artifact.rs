//! The content of one output artifact: a fixed header line followed by one
//! row per decoded voxel entry, in the order the entries were yielded.

use vstd::prelude::*;
use vstd::string::StringExecFns;
use crate::entry::row_line;
use crate::entry::row_text;
use crate::entry::lemma_row_single_line;
use crate::entry::VoxelEntry;

verus! {

/// The fixed column header, terminated by a line break.
pub open spec fn header_text() -> Seq<char> {
    "x,y,z,span,value"@ + seq!['\n']
}

/// The concatenated data rows for `entries`, in order.
pub open spec fn rows_text(entries: Seq<VoxelEntry>) -> Seq<char>
    decreases entries.len(),
{
    if entries.len() == 0 {
        Seq::empty()
    } else {
        rows_text(entries.drop_last()) + row_text(entries.last())
    }
}

/// The full text of the artifact for `entries`: the header line, then one
/// row per entry, in the order given.
pub open spec fn artifact_text(entries: Seq<VoxelEntry>) -> Seq<char> {
    header_text() + rows_text(entries)
}

/// The number of line breaks in `s`.
pub open spec fn line_count(s: Seq<char>) -> nat
    decreases s.len(),
{
    if s.len() == 0 {
        0
    } else {
        line_count(s.drop_last()) + (if s.last() == '\n' {
            1nat
        } else {
            0nat
        })
    }
}

/// Line breaks are counted piecewise over a concatenation.
pub proof fn lemma_line_count_concat(a: Seq<char>, b: Seq<char>)
    ensures
        line_count(a + b) == line_count(a) + line_count(b),
    decreases b.len(),
{
    if b.len() == 0 {
        assert(a + b =~= a);
    } else {
        lemma_line_count_concat(a, b.drop_last());
        assert((a + b).drop_last() =~= a + b.drop_last());
        assert((a + b).last() == b.last());
    }
}

/// A well-formed entry's row counts as exactly one line.
pub proof fn lemma_row_line_count(e: VoxelEntry)
    requires
        e.wf(),
    ensures
        line_count(row_text(e)) == 1,
{
    lemma_row_single_line(e);
    lemma_line_count_last_only(row_text(e));
}

/// A non-empty text whose only line break is its last character counts as
/// one line.
proof fn lemma_line_count_last_only(s: Seq<char>)
    requires
        s.len() > 0,
        s.last() == '\n',
        forall|i: int| 0 <= i < s.len() - 1 ==> s[i] != '\n',
    ensures
        line_count(s) == 1,
{
    lemma_line_count_no_newline(s.drop_last());
}

/// A text without line breaks counts as zero lines.
proof fn lemma_line_count_no_newline(s: Seq<char>)
    requires
        forall|i: int| 0 <= i < s.len() ==> s[i] != '\n',
    ensures
        line_count(s) == 0,
    decreases s.len(),
{
    if s.len() > 0 {
        lemma_line_count_no_newline(s.drop_last());
    }
}

/// The header is a single line.
pub proof fn lemma_header_line_count()
    ensures
        line_count(header_text()) == 1,
{
    reveal_strlit("x,y,z,span,value");
    assert forall|i: int| 0 <= i < "x,y,z,span,value"@.len() implies "x,y,z,span,value"@[i]
        != '\n' by {}
    lemma_line_count_no_newline("x,y,z,span,value"@);
    lemma_line_count_concat("x,y,z,span,value"@, seq!['\n']);
    assert(seq!['\n'].drop_last() =~= Seq::<char>::empty());
    assert(line_count(Seq::<char>::empty()) == 0);
    assert(line_count(seq!['\n']) == 1);
}

/// The artifact for `entries` holds one header line and one line per entry:
/// a grid of `N` entries yields an artifact of exactly `N + 1` lines, and a
/// grid with no entries yields the header alone.
pub proof fn lemma_artifact_line_count(entries: Seq<VoxelEntry>)
    requires
        forall|i: int| 0 <= i < entries.len() ==> entries[i].wf(),
    ensures
        line_count(artifact_text(entries)) == entries.len() + 1,
    decreases entries.len(),
{
    lemma_header_line_count();
    lemma_rows_line_count(entries);
    lemma_line_count_concat(header_text(), rows_text(entries));
}

/// The data rows for `entries` count one line per entry.
pub proof fn lemma_rows_line_count(entries: Seq<VoxelEntry>)
    requires
        forall|i: int| 0 <= i < entries.len() ==> entries[i].wf(),
    ensures
        line_count(rows_text(entries)) == entries.len(),
    decreases entries.len(),
{
    if entries.len() > 0 {
        lemma_rows_line_count(entries.drop_last());
        lemma_row_line_count(entries.last());
        lemma_line_count_concat(rows_text(entries.drop_last()), row_text(entries.last()));
    }
}

/// Row order equals entry order: the row of `entries[i]` stands in the
/// concatenated data rows exactly between the rows of its predecessors and
/// the rows of its successors.
pub proof fn lemma_rows_in_entry_order(entries: Seq<VoxelEntry>, i: int)
    requires
        0 <= i < entries.len(),
    ensures
        rows_text(entries) == rows_text(entries.take(i)) + row_text(entries[i]) + rows_text(
            entries.skip(i + 1),
        ),
    decreases entries.len(),
{
    if i == entries.len() - 1 {
        assert(entries.take(i) =~= entries.drop_last());
        assert(rows_text(entries.skip(i + 1)) =~= Seq::<char>::empty());
        assert(rows_text(entries.take(i)) + row_text(entries[i]) + rows_text(entries.skip(i + 1))
            =~= rows_text(entries.drop_last()) + row_text(entries.last()));
    } else {
        let front = entries.drop_last();
        lemma_rows_in_entry_order(front, i);
        assert(front.take(i) =~= entries.take(i));
        assert(front[i] == entries[i]);
        assert(front.skip(i + 1) =~= entries.skip(i + 1).drop_last());
        assert(entries.skip(i + 1).last() == entries.last());
        assert(rows_text(entries.skip(i + 1)) == rows_text(entries.skip(i + 1).drop_last())
            + row_text(entries.last()));
        assert(rows_text(entries) =~= rows_text(entries.take(i)) + row_text(entries[i])
            + rows_text(entries.skip(i + 1)));
    }
}

/// Renders the artifact text for `entries`: the header line first, then the
/// row of each entry in the order given. The result always holds exactly one
/// line per entry plus the header line.
pub fn render_artifact(entries: &Vec<VoxelEntry>) -> (r: String)
    ensures
        r@ == artifact_text(entries@),
        line_count(r@) == entries@.len() + 1,
{
    let mut s = String::from_str("x,y,z,span,value");
    s.append("\n");
    proof {
        reveal_strlit("\n");
        assert(s@ =~= header_text());
        assert(entries@.take(0) =~= Seq::<VoxelEntry>::empty());
        assert(s@ =~= artifact_text(entries@.take(0)));
    }
    let n = entries.len();
    let mut i: usize = 0;
    while i < n
        invariant
            n == entries@.len(),
            i <= n,
            s@ == artifact_text(entries@.take(i as int)),
            forall|j: int| 0 <= j < i ==> entries@[j].wf(),
        decreases n - i,
    {
        let e = &entries[i];
        proof {
            use_type_invariant(e);
        }
        let line = row_line(e);
        s.append(line.as_str());
        proof {
            assert(entries@.take(i + 1).drop_last() =~= entries@.take(i as int));
            assert(entries@.take(i + 1).last() == entries@[i as int]);
            assert(s@ =~= artifact_text(entries@.take(i + 1)));
        }
        i = i + 1;
    }
    proof {
        assert(entries@.take(n as int) =~= entries@);
        lemma_artifact_line_count(entries@);
    }
    s
}

} // verus!
