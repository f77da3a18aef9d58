//! The decoded voxel entry and its projection to one CSV row.

use vstd::prelude::*;
use vstd::string::StringExecFns;
use crate::textfmt::csv_plain;
use crate::textfmt::dec_int;
use crate::textfmt::dec_nat;
use crate::textfmt::i32_text;
use crate::textfmt::is_csv_plain;
use crate::textfmt::lemma_dec_int_plain;
use crate::textfmt::lemma_dec_nat_plain;
use crate::textfmt::nat_text;

verus! {

/// One decoded unit of a sparse voxel grid: a position, a span giving the
/// side length of the constant-value region the entry covers, and the text
/// already rendered for the stored scalar value. The decoder's scalar type is
/// half-precision floating point, which this library cannot hold; the caller
/// renders the value once and the entry carries the text.
pub struct VoxelEntry {
    x: i32,
    y: i32,
    z: i32,
    span: u32,
    value_text: String,
}

impl VoxelEntry {
    /// The value's rendered text is non-empty plain row text: it contains no
    /// separator, quote or line break, so each entry yields exactly one row.
    #[verifier::type_invariant]
    pub closed spec fn wf(self) -> bool {
        csv_plain(self.value_text@) && self.value_text@.len() > 0
    }

    /// The first coordinate of the entry's position.
    pub closed spec fn x(self) -> i32 {
        self.x
    }

    /// The second coordinate of the entry's position.
    pub closed spec fn y(self) -> i32 {
        self.y
    }

    /// The third coordinate of the entry's position.
    pub closed spec fn z(self) -> i32 {
        self.z
    }

    /// The side length of the region the entry covers, in voxels.
    pub closed spec fn span(self) -> u32 {
        self.span
    }

    /// The rendered text of the stored scalar value.
    pub closed spec fn value_view(self) -> Seq<char> {
        self.value_text@
    }

    /// Builds an entry, accepting the value text only if it is non-empty
    /// plain row text (the decimal rendering of a scalar always is).
    pub fn new(x: i32, y: i32, z: i32, span: u32, value_text: String) -> (r: Option<VoxelEntry>)
        ensures
            r is Some <==> (csv_plain(value_text@) && value_text@.len() > 0),
            r matches Some(e) ==> e.x() == x && e.y() == y && e.z() == z && e.span() == span
                && e.value_view() == value_text@,
    {
        if is_csv_plain(value_text.as_str()) && !value_text.as_str().is_empty() {
            Some(VoxelEntry { x, y, z, span, value_text })
        } else {
            None
        }
    }

    /// The rendered value text, for writing the row's last field.
    pub fn value_str(&self) -> (r: &str)
        ensures
            r@ == self.value_view(),
    {
        self.value_text.as_str()
    }
}

/// The text of one CSV data row for `e`: the columns `x,y,z,span,value`,
/// comma-separated and terminated by a line break.
pub open spec fn row_text(e: VoxelEntry) -> Seq<char> {
    dec_int(e.x() as int) + seq![','] + dec_int(e.y() as int) + seq![','] + dec_int(e.z() as int)
        + seq![','] + dec_nat(e.span() as nat) + seq![','] + e.value_view() + seq!['\n']
}

/// The five field texts of the row for `e`, in column order.
pub fn row_fields(e: &VoxelEntry) -> (r: Vec<String>)
    ensures
        r@.len() == 5,
        r@[0]@ == dec_int(e.x() as int),
        r@[1]@ == dec_int(e.y() as int),
        r@[2]@ == dec_int(e.z() as int),
        r@[3]@ == dec_nat(e.span() as nat),
        r@[4]@ == e.value_view(),
{
    let mut fields: Vec<String> = Vec::new();
    fields.push(i32_text(e.x));
    fields.push(i32_text(e.y));
    fields.push(i32_text(e.z));
    fields.push(nat_text(e.span as u64));
    fields.push(String::from_str(e.value_str()));
    fields
}

/// The full text of the row for `e`.
pub fn row_line(e: &VoxelEntry) -> (r: String)
    ensures
        r@ == row_text(*e),
{
    let mut s = i32_text(e.x);
    s.append(",");
    let y = i32_text(e.y);
    s.append(y.as_str());
    s.append(",");
    let z = i32_text(e.z);
    s.append(z.as_str());
    s.append(",");
    let span = nat_text(e.span as u64);
    s.append(span.as_str());
    s.append(",");
    s.append(e.value_str());
    s.append("\n");
    proof {
        reveal_strlit(",");
        reveal_strlit("\n");
        assert(s@ =~= row_text(*e));
    }
    s
}

/// A data row holds exactly one line break, the one that ends it.
pub proof fn lemma_row_single_line(e: VoxelEntry)
    requires
        e.wf(),
    ensures
        row_text(e).len() > 0,
        row_text(e).last() == '\n',
        forall|i: int| 0 <= i < row_text(e).len() - 1 ==> row_text(e)[i] != '\n',
{
    lemma_dec_int_plain(e.x() as int);
    lemma_dec_int_plain(e.y() as int);
    lemma_dec_int_plain(e.z() as int);
    lemma_dec_nat_plain(e.span() as nat);
}

} // verus!
