//! Tabular result sets: named columns over rows of text cells.

use crate::text::{contains_text, lowercase, occurs_in};
use vstd::prelude::*;

verus! {

/// The mathematical content of a result set.
#[verifier::ext_equal]
pub struct SampleDataView {
    /// Column names, in display order.
    pub columns: Seq<Seq<char>>,
    /// Rows in order, each a sequence of cells.
    pub rows: Seq<Seq<Seq<char>>>,
}

impl SampleDataView {
    /// Every row holds one cell per column.
    pub open spec fn rectangular(self) -> bool {
        forall|i: int|
            0 <= i < self.rows.len() ==> (#[trigger] self.rows[i]).len() == self.columns.len()
    }

    /// The rows that match `query`, in the order of the source, under the same columns.
    pub open spec fn filter_rows(self, query: Seq<char>) -> SampleDataView {
        SampleDataView {
            columns: self.columns,
            rows: self.rows.filter(|row: Seq<Seq<char>>| row_matches(row, query)),
        }
    }
}

/// Whether a table of cells has `width` cells in every row.
pub open spec fn all_rows_have_width(rows: Seq<Seq<Seq<char>>>, width: nat) -> bool {
    forall|i: int| 0 <= i < rows.len() ==> (#[trigger] rows[i]).len() == width
}

/// A row matches a query when the lower-cased query occurs in the lower-cased
/// concatenation of the row's cells.
pub open spec fn row_matches(row: Seq<Seq<char>>, query: Seq<char>) -> bool {
    occurs_in(lowercase(query), lowercase(row.flatten()))
}

/// An immutable rectangular data set of text cells.
#[derive(Debug)]
pub struct ParquetSampleData {
    flattened_columns: Vec<String>,
    total_columns: usize,
    total_rows: usize,
    rows: Vec<Vec<String>>,
}

impl View for ParquetSampleData {
    type V = SampleDataView;

    closed spec fn view(&self) -> SampleDataView {
        SampleDataView {
            columns: self.flattened_columns.deep_view(),
            rows: self.rows.deep_view(),
        }
    }
}

impl Clone for ParquetSampleData {
    fn clone(&self) -> (copy: Self)
        ensures
            copy@ == self@,
    {
        proof {
            use_type_invariant(self);
        }
        let mut rows: Vec<Vec<String>> = Vec::new();
        let mut i: usize = 0;
        while i < self.rows.len()
            invariant
                i <= self.rows.len(),
                rows.len() == i,
                forall|j: int|
                    0 <= j < i ==> (#[trigger] rows[j]).deep_view() == self.rows[j].deep_view(),
                forall|j: int| 0 <= j < i ==> (#[trigger] rows[j]).len() == self.rows[j].len(),
            decreases self.rows.len() - i,
        {
            rows.push(copy_row(&self.rows[i]));
            i += 1;
        }
        assert(rows.deep_view() =~= self.rows.deep_view());
        ParquetSampleData {
            flattened_columns: copy_row(&self.flattened_columns),
            total_columns: self.total_columns,
            total_rows: self.total_rows,
            rows,
        }
    }
}

impl ParquetSampleData {
    #[verifier::type_invariant]
    spec fn well_formed(&self) -> bool {
        &&& self.total_columns == self.flattened_columns.len()
        &&& self.total_rows == self.rows.len()
        &&& forall|i: int|
            0 <= i < self.rows.len() ==> (#[trigger] self.rows[i]).len()
                == self.flattened_columns.len()
    }

    /// Builds a result set, or `None` when some row does not have one cell per
    /// column.
    pub fn new(flattened_columns: Vec<String>, rows: Vec<Vec<String>>) -> (r: Option<Self>)
        ensures
            r is Some <==> all_rows_have_width(rows.deep_view(), flattened_columns.len() as nat),
            r matches Some(data) ==> (data@.columns == flattened_columns.deep_view() && data@.rows
                == rows.deep_view()),
    {
        let total_columns = flattened_columns.len();
        let total_rows = rows.len();
        let mut i: usize = 0;
        while i < total_rows
            invariant
                i <= total_rows,
                total_rows == rows.len(),
                total_columns == flattened_columns.len(),
                forall|j: int| 0 <= j < i ==> (#[trigger] rows[j]).len() == total_columns,
            decreases total_rows - i,
        {
            if rows[i].len() != total_columns {
                assert(rows.deep_view()[i as int].len() != total_columns);
                return None;
            }
            i += 1;
        }
        assert forall|j: int| 0 <= j < rows.deep_view().len() implies (
        #[trigger] rows.deep_view()[j]).len() == total_columns by {
            assert(rows[j].len() == total_columns);
        }
        Some(Self::from_rows(flattened_columns, rows))
    }

    /// Builds a result set from rows that are known to have one cell per column.
    pub(crate) fn from_rows(flattened_columns: Vec<String>, rows: Vec<Vec<String>>) -> (data: Self)
        requires
            all_rows_have_width(rows.deep_view(), flattened_columns.len() as nat),
        ensures
            data@.columns == flattened_columns.deep_view(),
            data@.rows == rows.deep_view(),
            data@.rectangular(),
    {
        let total_columns = flattened_columns.len();
        let total_rows = rows.len();
        assert forall|i: int| 0 <= i < rows.len() implies (#[trigger] rows[i]).len()
            == total_columns by {
            assert(rows.deep_view()[i].len() == total_columns);
        }
        ParquetSampleData { flattened_columns, total_columns, total_rows, rows }
    }

    /// The column names, in display order.
    pub fn flattened_columns(&self) -> (r: &Vec<String>)
        ensures
            r.deep_view() == self@.columns,
    {
        &self.flattened_columns
    }

    /// The rows, each with one cell per column.
    pub fn rows(&self) -> (r: &Vec<Vec<String>>)
        ensures
            r.deep_view() == self@.rows,
            self@.rectangular(),
    {
        proof {
            use_type_invariant(self);
            assert forall|i: int| 0 <= i < self@.rows.len() implies (#[trigger] self@.rows[i]).len()
                == self@.columns.len() by {
                assert(self.rows[i].len() == self.flattened_columns.len());
            }
        }
        &self.rows
    }

    /// The number of columns.
    pub fn total_columns(&self) -> (r: usize)
        ensures
            r == self@.columns.len(),
    {
        proof {
            use_type_invariant(self);
        }
        self.total_columns
    }

    /// The number of rows.
    pub fn total_rows(&self) -> (r: usize)
        ensures
            r == self@.rows.len(),
    {
        proof {
            use_type_invariant(self);
        }
        self.total_rows
    }

    /// The row at `index`, if there is one.
    pub fn row(&self, index: usize) -> (r: Option<&Vec<String>>)
        ensures
            match r {
                Some(row) => index < self@.rows.len() && row.deep_view()
                    == self@.rows[index as int] && row.len() == self@.columns.len(),
                None => index >= self@.rows.len(),
            },
    {
        proof {
            use_type_invariant(self);
        }
        if index < self.rows.len() {
            Some(&self.rows[index])
        } else {
            None
        }
    }

    /// Keeps the rows in which `query` occurs, ignoring case, when the cells of
    /// the row are read as one text. The source is left as it is.
    pub fn filter_rows(&self, query: &str) -> (r: ParquetSampleData)
        ensures
            r@ == self@.filter_rows(query@),
            r@.rows.len() <= self@.rows.len(),
            r@.rectangular(),
    {
        proof {
            use_type_invariant(self);
        }
        let needle = query.to_lowercase();
        let ghost pred = |row: Seq<Seq<char>>| row_matches(row, query@);
        let mut kept: Vec<Vec<String>> = Vec::new();
        let mut i: usize = 0;
        proof {
            reveal(Seq::filter);
            assert(self.rows.deep_view().take(0) =~= Seq::empty());
        }
        while i < self.rows.len()
            invariant
                i <= self.rows.len(),
                needle@ == lowercase(query@),
                pred == |row: Seq<Seq<char>>| row_matches(row, query@),
                kept.deep_view() == self.rows.deep_view().take(i as int).filter(pred),
                forall|j: int|
                    0 <= j < self.rows.len() ==> (#[trigger] self.rows[j]).len()
                        == self.flattened_columns.len(),
                forall|j: int|
                    0 <= j < kept.len() ==> (#[trigger] kept[j]).len()
                        == self.flattened_columns.len(),
            decreases self.rows.len() - i,
        {
            let row = &self.rows[i];
            let line = row_text(row);
            let haystack = line.as_str().to_lowercase();
            let keep = contains_text(haystack.as_str(), needle.as_str());
            proof {
                reveal(Seq::filter);
                let all = self.rows.deep_view();
                assert(all.take(i + 1).drop_last() =~= all.take(i as int));
                assert(all.take(i + 1).last() == row.deep_view());
                assert(keep == pred(row.deep_view()));
            }
            if keep {
                let ghost before = kept.deep_view();
                let copy = copy_row(row);
                kept.push(copy);
                assert(kept.deep_view() =~= before.push(row.deep_view()));
            }
            i += 1;
        }
        assert(self.rows.deep_view().take(i as int) =~= self.rows.deep_view());
        proof {
            self.rows.deep_view().lemma_filter_len(pred);
            assert forall|j: int| 0 <= j < kept.deep_view().len() implies (
            #[trigger] kept.deep_view()[j]).len() == self.flattened_columns.deep_view().len() by {
                assert(kept[j].len() == self.flattened_columns.len());
            }
        }
        let total_rows = kept.len();
        let flattened_columns = copy_row(&self.flattened_columns);
        ParquetSampleData {
            flattened_columns,
            total_columns: self.total_columns,
            total_rows,
            rows: kept,
        }
    }
}

/// The cells of a row read as one text.
fn row_text(row: &Vec<String>) -> (line: String)
    ensures
        line@ == row.deep_view().flatten(),
{
    let mut line = String::new();
    let mut i: usize = 0;
    assert(row.deep_view().take(0) =~= Seq::empty());
    while i < row.len()
        invariant
            i <= row.len(),
            line@ == row.deep_view().take(i as int).flatten(),
        decreases row.len() - i,
    {
        proof {
            let cells = row.deep_view();
            assert(cells.take(i + 1) =~= cells.take(i as int).push(row[i as int]@));
            cells.take(i as int).lemma_flatten_push(row[i as int]@);
        }
        line.append(row[i].as_str());
        i += 1;
    }
    assert(row.deep_view().take(i as int) =~= row.deep_view());
    line
}

/// A copy of a row of cells.
fn copy_row(row: &Vec<String>) -> (copy: Vec<String>)
    ensures
        copy.deep_view() == row.deep_view(),
        copy.len() == row.len(),
{
    let mut copy: Vec<String> = Vec::new();
    let mut i: usize = 0;
    while i < row.len()
        invariant
            i <= row.len(),
            copy.len() == i,
            forall|j: int| 0 <= j < i ==> (#[trigger] copy[j])@ == row[j]@,
        decreases row.len() - i,
    {
        copy.push(row[i].clone());
        i += 1;
    }
    assert(copy.deep_view() =~= row.deep_view());
    copy
}

} // verus!
