//! Query outcomes: checking a query before it runs, and turning the cells
//! that a query produced into a result set.

use crate::sample_data::{ParquetSampleData, SampleDataView};
use crate::text::{blank, is_blank};
use vstd::prelude::*;

verus! {

/// The outcome of a query.
#[derive(Debug)]
pub enum SqlResult {
    /// The rows that the query produced.
    Success(ParquetSampleData),
    /// Why the query produced none.
    Failure(String),
}

impl Clone for SqlResult {
    fn clone(&self) -> (copy: Self)
        ensures
            copy@ == self@,
    {
        match self {
            SqlResult::Success(data) => SqlResult::Success(data.clone()),
            SqlResult::Failure(message) => SqlResult::Failure(message.clone()),
        }
    }
}

/// The mathematical content of a query outcome.
#[verifier::ext_equal]
pub enum SqlResultView {
    Success(SampleDataView),
    Failure(Seq<char>),
}

impl View for SqlResult {
    type V = SqlResultView;

    open spec fn view(&self) -> SqlResultView {
        match self {
            SqlResult::Success(data) => SqlResultView::Success(data@),
            SqlResult::Failure(message) => SqlResultView::Failure(message@),
        }
    }
}

/// The message with which an empty query is turned away.
pub open spec fn empty_query_message() -> Seq<char> {
    "Empty query"@
}

/// The text shown for a missing cell.
pub open spec fn null_text() -> Seq<char> {
    "NULL"@
}

/// What a cell holds, if it holds anything.
pub open spec fn cell_view(cell: Option<String>) -> Option<Seq<char>> {
    match cell {
        Some(text) => Some(text@),
        None => None,
    }
}

/// The text of a cell: its own text, or the null text when it is missing.
pub open spec fn cell_text(cell: Option<Seq<char>>) -> Seq<char> {
    match cell {
        Some(text) => text,
        None => null_text(),
    }
}

/// Every row of cells has `width` cells.
pub open spec fn all_cells_have_width(cells: Seq<Vec<Option<String>>>, width: nat) -> bool {
    forall|i: int| 0 <= i < cells.len() ==> (#[trigger] cells[i]).len() == width
}

/// Turns a query away when it is empty or holds only white space.
pub fn validate_query(query: &str) -> (r: Result<(), String>)
    ensures
        blank(query@) <==> r is Err,
        r matches Err(message) ==> message@ == empty_query_message(),
{
    if is_blank(query) {
        Err("Empty query".to_owned())
    } else {
        Ok(())
    }
}

/// The text to show for a cell.
pub fn stringify_cell(cell: Option<String>) -> (text: String)
    ensures
        text@ == cell_text(cell_view(cell)),
{
    match cell {
        Some(text) => text,
        None => "NULL".to_owned(),
    }
}

/// The texts to show for a row of cells, in the order of the cells.
fn stringify_row(cells: &Vec<Option<String>>) -> (row: Vec<String>)
    ensures
        row.len() == cells.len(),
        forall|j: int|
            0 <= j < cells.len() ==> (#[trigger] row[j])@ == cell_text(cell_view(cells[j])),
{
    let mut row: Vec<String> = Vec::new();
    let mut j: usize = 0;
    while j < cells.len()
        invariant
            j <= cells.len(),
            row.len() == j,
            forall|k: int| 0 <= k < j ==> (#[trigger] row[k])@ == cell_text(cell_view(cells[k])),
        decreases cells.len() - j,
    {
        let text = match &cells[j] {
            Some(text) => stringify_cell(Some(text.clone())),
            None => stringify_cell(None),
        };
        row.push(text);
        j += 1;
    }
    row
}

/// Normalises the cells of a query result into a result set: the column
/// names as given, the rows in the order given, every cell as its text and
/// every missing cell as the null text. The result is `None` when some row
/// does not have one cell per column.
pub fn sample_data_from_cells(names: Vec<String>, cells: Vec<Vec<Option<String>>>) -> (r: Option<
    ParquetSampleData,
>)
    ensures
        r is Some <==> all_cells_have_width(cells@, names.len() as nat),
        r matches Some(data) ==> {
            &&& data@.columns == names.deep_view()
            &&& data@.rows.len() == cells.len()
            &&& data@.rectangular()
            &&& forall|i: int, j: int|
                0 <= i < cells.len() && 0 <= j < names.len() ==> #[trigger] data@.rows[i][j]
                    == cell_text(cell_view(cells[i][j]))
        },
{
    let width = names.len();
    let mut rows: Vec<Vec<String>> = Vec::new();
    let mut i: usize = 0;
    while i < cells.len()
        invariant
            i <= cells.len(),
            width == names.len(),
            rows.len() == i,
            forall|k: int| 0 <= k < i ==> (#[trigger] cells[k]).len() == width,
            forall|k: int| 0 <= k < i ==> (#[trigger] rows[k]).len() == width,
            forall|k: int, j: int|
                0 <= k < i && 0 <= j < width ==> (#[trigger] rows[k][j])@ == cell_text(
                    cell_view(cells[k][j]),
                ),
        decreases cells.len() - i,
    {
        if cells[i].len() != width {
            return None;
        }
        rows.push(stringify_row(&cells[i]));
        i += 1;
    }
    proof {
        assert forall|k: int| 0 <= k < rows.deep_view().len() implies (
        #[trigger] rows.deep_view()[k]).len() == width by {
            assert(rows[k].len() == width);
        }
    }
    let data = ParquetSampleData::from_rows(names, rows);
    proof {
        assert forall|k: int, j: int| 0 <= k < cells.len() && 0 <= j < width implies (
        #[trigger] data@.rows[k][j]) == cell_text(cell_view(cells[k][j])) by {
            assert(rows[k][j]@ == cell_text(cell_view(cells[k][j])));
        }
    }
    Some(data)
}

/// The outcome to record for a query that was run: its rows, or the failure
/// message as it came.
pub fn query_outcome(executed: Result<ParquetSampleData, String>) -> (r: SqlResult)
    ensures
        r@ == match executed {
            Ok(data) => SqlResultView::Success(data@),
            Err(message) => SqlResultView::Failure(message@),
        },
{
    match executed {
        Ok(data) => SqlResult::Success(data),
        Err(message) => SqlResult::Failure(message),
    }
}

} // verus!
