//! What the explorer knows of the file it shows.

use crate::sample_data::ParquetSampleData;
use vstd::prelude::*;

verus! {

/// One line of the column tree.
#[derive(Clone, Copy, Debug, PartialEq, Eq, Structural)]
pub enum SchemaInfo {
    /// A nested group of columns.
    Group,
    /// A leaf column that holds values.
    Primitive,
}

/// The number of leaf columns among the lines of a column tree.
pub open spec fn primitive_count(lines: Seq<SchemaInfo>) -> nat
    decreases lines.len(),
{
    if lines.len() == 0 {
        0
    } else {
        primitive_count(lines.drop_last()) + if lines.last() is Primitive {
            1nat
        } else {
            0nat
        }
    }
}

/// A longer prefix of a tree has at least as many leaves.
pub proof fn lemma_primitive_count_monotonic(lines: Seq<SchemaInfo>, i: int, j: int)
    requires
        0 <= i <= j <= lines.len(),
    ensures
        primitive_count(lines.take(i)) <= primitive_count(lines.take(j)),
    decreases j - i,
{
    if i < j {
        lemma_primitive_count_monotonic(lines, i, j - 1);
        assert(lines.take(j).drop_last() =~= lines.take(j - 1));
    }
}

/// The file under inspection: its path, its column tree, how many row groups
/// it has, and a sample of its rows.
pub struct ParquetCtx {
    pub file_path: String,
    /// The lines of the column tree, top to bottom.
    pub schema: Vec<SchemaInfo>,
    /// The width of the column tree on screen.
    pub tree_width: u16,
    pub num_row_groups: usize,
    pub sample_data: ParquetSampleData,
}

impl ParquetCtx {
    /// The number of leaf columns.
    pub fn column_size(&self) -> (n: usize)
        ensures
            n == primitive_count(self.schema@),
    {
        let mut n: usize = 0;
        let mut i: usize = 0;
        assert(self.schema@.take(0) =~= Seq::empty());
        while i < self.schema.len()
            invariant
                i <= self.schema.len(),
                n == primitive_count(self.schema@.take(i as int)),
                n <= i,
            decreases self.schema.len() - i,
        {
            assert(self.schema@.take(i + 1).drop_last() =~= self.schema@.take(i as int));
            match self.schema[i] {
                SchemaInfo::Primitive => {
                    n += 1;
                },
                SchemaInfo::Group => {},
            }
            i += 1;
        }
        assert(self.schema@.take(i as int) =~= self.schema@);
        n
    }
}

} // verus!
