//! Navigation state: cursor, scroll offsets, search, query and row-detail
//! state of one session, with the operations that change it.

use crate::sample_data::{ParquetSampleData, SampleDataView};
use crate::sql::{SqlResult, SqlResultView};
use crate::viewport::{max_scroll, sync_scroll, synced_scroll};
use vstd::prelude::*;

verus! {

/// Number of lines by which a page key moves the row-detail pane.
pub const DETAIL_PAGE_SIZE: usize = 10;

/// Number of data rows assumed visible before the first frame was laid out.
pub const DEFAULT_VISIBLE_DATA_ROWS: usize = 20;

/// `a + b`, held at the largest machine word.
pub open spec fn saturating_sum(a: nat, b: nat) -> nat {
    if a + b > usize::MAX {
        usize::MAX as nat
    } else {
        a + b
    }
}

/// `a - b`, held at zero.
pub open spec fn saturating_diff(a: nat, b: nat) -> nat {
    if a >= b {
        (a - b) as nat
    } else {
        0
    }
}

/// The smaller of two numbers.
pub open spec fn lesser(a: nat, b: nat) -> nat {
    if a <= b {
        a
    } else {
        b
    }
}

/// The mathematical content of the navigation state.
#[verifier::ext_equal]
pub struct AppStateView {
    /// Horizontal selection or scroll position of the active view.
    pub horizontal_offset: nat,
    /// Vertical selection of the active view.
    pub vertical_offset: nat,
    /// First visible line of the column tree.
    pub tree_scroll_offset: nat,
    /// First visible row of the data table.
    pub data_vertical_scroll: nat,
    /// Number of data rows that fit on the screen.
    pub visible_data_rows: nat,
    /// Whether the search line is being edited.
    pub search_mode: bool,
    /// The search line.
    pub search_query: Seq<char>,
    /// The search text by which the sample rows are filtered, if any.
    pub search_filter: Option<Seq<char>>,
    /// The sample rows that passed the filter, if one is active.
    pub filtered_sample_data: Option<SampleDataView>,
    /// The query line.
    pub sql_query: Seq<char>,
    /// The outcome of the last query, if one ran.
    pub sql_result: Option<SqlResultView>,
    /// The row shown in the row-detail pane, if the pane is open.
    pub row_detail_row: Option<nat>,
    /// First visible line of the row-detail pane.
    pub detail_scroll_offset: nat,
    /// First visible column of the row-detail pane.
    pub detail_scroll_horizontal: nat,
}

impl AppStateView {
    /// A filter is active exactly when filtered rows are held.
    pub open spec fn filter_paired(self) -> bool {
        self.search_filter is Some <==> self.filtered_sample_data is Some
    }

    /// Search entry and the row-detail pane are not open together.
    pub open spec fn one_overlay(self) -> bool {
        !(self.search_mode && self.row_detail_row is Some)
    }

    /// The state at the start of a session.
    pub open spec fn initial() -> AppStateView {
        AppStateView {
            horizontal_offset: 0,
            vertical_offset: 0,
            tree_scroll_offset: 0,
            data_vertical_scroll: 0,
            visible_data_rows: DEFAULT_VISIBLE_DATA_ROWS as nat,
            search_mode: false,
            search_query: Seq::empty(),
            search_filter: None,
            filtered_sample_data: None,
            sql_query: Seq::empty(),
            sql_result: None,
            row_detail_row: None,
            detail_scroll_offset: 0,
            detail_scroll_horizontal: 0,
        }
    }

    /// The four base offsets at zero, everything else kept.
    pub open spec fn reset(self) -> AppStateView {
        AppStateView {
            horizontal_offset: 0,
            vertical_offset: 0,
            tree_scroll_offset: 0,
            data_vertical_scroll: 0,
            ..self
        }
    }

    /// No filter and no filtered rows.
    pub open spec fn clear_search_filter(self) -> AppStateView {
        AppStateView { search_filter: None, filtered_sample_data: None, ..self }
    }

    /// The vertical selection one step further down.
    pub open spec fn down(self) -> AppStateView {
        AppStateView { vertical_offset: self.vertical_offset + 1, ..self }
    }

    /// The vertical selection one step further up, and not above zero.
    pub open spec fn up(self) -> AppStateView {
        AppStateView { vertical_offset: saturating_diff(self.vertical_offset, 1), ..self }
    }

    /// The horizontal selection one step further right.
    pub open spec fn right(self) -> AppStateView {
        AppStateView { horizontal_offset: self.horizontal_offset + 1, ..self }
    }

    /// The horizontal selection one step further left, and not left of zero.
    pub open spec fn left(self) -> AppStateView {
        AppStateView { horizontal_offset: saturating_diff(self.horizontal_offset, 1), ..self }
    }

    /// The column tree scrolled one line up, and not above zero.
    pub open spec fn tree_scroll_up(self) -> AppStateView {
        AppStateView { tree_scroll_offset: saturating_diff(self.tree_scroll_offset, 1), ..self }
    }

    /// The column tree scrolled one line down.
    pub open spec fn tree_scroll_down(self) -> AppStateView {
        AppStateView { tree_scroll_offset: self.tree_scroll_offset + 1, ..self }
    }

    /// The data table scrolled to `scroll`.
    pub open spec fn with_data_vertical_scroll(self, scroll: nat) -> AppStateView {
        AppStateView { data_vertical_scroll: scroll, ..self }
    }

    /// The data window sized to `rows` rows.
    pub open spec fn with_visible_data_rows(self, rows: nat) -> AppStateView {
        AppStateView { visible_data_rows: rows, ..self }
    }

    /// The selection brought back inside `total_rows` rows: at most the last
    /// of them, and zero when there is none.
    pub open spec fn clamp_selection(self, total_rows: nat) -> AppStateView {
        AppStateView {
            vertical_offset: lesser(self.vertical_offset, saturating_diff(total_rows, 1)),
            ..self
        }
    }

    /// The data table scrolled so that it shows the selection.
    pub open spec fn adjust_scroll_to_selection(
        self,
        visible_rows: nat,
        max_rows: nat,
    ) -> AppStateView {
        AppStateView {
            data_vertical_scroll: synced_scroll(
                self.vertical_offset,
                self.data_vertical_scroll,
                visible_rows,
                max_rows,
            ),
            ..self
        }
    }

    /// The selection `visible_rows` further up, and the table scrolled to it.
    pub open spec fn page_up(self, visible_rows: nat, max_rows: nat) -> AppStateView {
        AppStateView {
            vertical_offset: saturating_diff(self.vertical_offset, visible_rows),
            ..self
        }.adjust_scroll_to_selection(visible_rows, max_rows)
    }

    /// The selection `visible_rows` further down, but not past the last of
    /// `max_rows` rows, and the table scrolled to it.
    pub open spec fn page_down(self, visible_rows: nat, max_rows: nat) -> AppStateView {
        AppStateView {
            vertical_offset: lesser(
                self.vertical_offset + visible_rows,
                saturating_diff(max_rows, 1),
            ),
            ..self
        }.adjust_scroll_to_selection(visible_rows, max_rows)
    }

    /// Search entry begun on an empty search line; an open row-detail pane gives way.
    pub open spec fn start_search(self) -> AppStateView {
        AppStateView {
            search_mode: true,
            row_detail_row: None,
            search_query: Seq::empty(),
            ..self
        }
    }

    /// Search entry left, the search line discarded, the filter as it was.
    pub open spec fn cancel_search(self) -> AppStateView {
        AppStateView { search_mode: false, search_query: Seq::empty(), ..self }
    }

    /// Search entry left with the search line as the filter over `source`;
    /// the base offsets start over.
    pub open spec fn commit_search(self, source: SampleDataView) -> AppStateView {
        AppStateView {
            search_mode: false,
            row_detail_row: None,
            search_filter: Some(self.search_query),
            filtered_sample_data: Some(source.filter_rows(self.search_query)),
            ..self
        }.reset()
    }

    /// The search line with `c` at its end.
    pub open spec fn push_search_char(self, c: char) -> AppStateView {
        AppStateView { search_query: self.search_query.push(c), ..self }
    }

    /// The search line without its last character.
    pub open spec fn pop_search_char(self) -> AppStateView {
        AppStateView { search_query: without_last(self.search_query), ..self }
    }

    /// The query line with `c` at its end.
    pub open spec fn push_sql_char(self, c: char) -> AppStateView {
        AppStateView { sql_query: self.sql_query.push(c), ..self }
    }

    /// The query line without its last character.
    pub open spec fn pop_sql_char(self) -> AppStateView {
        AppStateView { sql_query: without_last(self.sql_query), ..self }
    }

    /// The query line and the last outcome dropped.
    pub open spec fn clear_sql(self) -> AppStateView {
        AppStateView { sql_query: Seq::empty(), sql_result: None, ..self }
    }

    /// The outcome of a query recorded.
    pub open spec fn with_sql_result(self, result: SqlResultView) -> AppStateView {
        AppStateView { sql_result: Some(result), ..self }
    }

    /// The row-detail pane opened on `row`, scrolled to its start; search
    /// entry gives way.
    pub open spec fn open_row_detail(self, row: nat) -> AppStateView {
        AppStateView {
            search_mode: false,
            row_detail_row: Some(row),
            detail_scroll_offset: 0,
            detail_scroll_horizontal: 0,
            ..self
        }
    }

    /// The row-detail pane closed.
    pub open spec fn close_row_detail(self) -> AppStateView {
        AppStateView { row_detail_row: None, ..self }
    }

    /// The row-detail pane scrolled up by `lines`, and not above zero.
    pub open spec fn detail_scroll_up(self, lines: nat) -> AppStateView {
        AppStateView {
            detail_scroll_offset: saturating_diff(self.detail_scroll_offset, lines),
            ..self
        }
    }

    /// The row-detail pane scrolled down by `lines`, held at the largest
    /// machine word.
    pub open spec fn detail_scroll_down(self, lines: nat) -> AppStateView {
        AppStateView {
            detail_scroll_offset: saturating_sum(self.detail_scroll_offset, lines),
            ..self
        }
    }

    /// The row-detail pane scrolled one column left, and not left of zero.
    pub open spec fn detail_scroll_left(self) -> AppStateView {
        AppStateView {
            detail_scroll_horizontal: saturating_diff(self.detail_scroll_horizontal, 1),
            ..self
        }
    }

    /// The row-detail pane scrolled one column right, held at the largest
    /// machine word.
    pub open spec fn detail_scroll_right(self) -> AppStateView {
        AppStateView {
            detail_scroll_horizontal: saturating_sum(self.detail_scroll_horizontal, 1),
            ..self
        }
    }
}

/// A line without its last character; an empty line stays empty.
pub open spec fn without_last(line: Seq<char>) -> Seq<char> {
    if line.len() > 0 {
        line.drop_last()
    } else {
        line
    }
}

/// Which overlay holds the keyboard.
enum Overlay {
    Normal,
    SearchEntry,
    RowDetail(usize),
}

/// A filter and the rows that passed it.
struct ActiveFilter {
    query: String,
    rows: ParquetSampleData,
}

/// The navigation state of one session.
pub struct AppState {
    horizontal_offset: usize,
    vertical_offset: usize,
    tree_scroll_offset: usize,
    data_vertical_scroll: usize,
    visible_data_rows: usize,
    overlay: Overlay,
    search_query: String,
    filter: Option<ActiveFilter>,
    sql_query: String,
    sql_result: Option<SqlResult>,
    detail_scroll_offset: usize,
    detail_scroll_horizontal: usize,
}

impl View for AppState {
    type V = AppStateView;

    closed spec fn view(&self) -> AppStateView {
        AppStateView {
            horizontal_offset: self.horizontal_offset as nat,
            vertical_offset: self.vertical_offset as nat,
            tree_scroll_offset: self.tree_scroll_offset as nat,
            data_vertical_scroll: self.data_vertical_scroll as nat,
            visible_data_rows: self.visible_data_rows as nat,
            search_mode: self.overlay is SearchEntry,
            search_query: self.search_query@,
            search_filter: match self.filter {
                Some(filter) => Some(filter.query@),
                None => None,
            },
            filtered_sample_data: match self.filter {
                Some(filter) => Some(filter.rows@),
                None => None,
            },
            sql_query: self.sql_query@,
            sql_result: match self.sql_result {
                Some(result) => Some(result@),
                None => None,
            },
            row_detail_row: match self.overlay {
                Overlay::RowDetail(row) => Some(row as nat),
                _ => None,
            },
            detail_scroll_offset: self.detail_scroll_offset as nat,
            detail_scroll_horizontal: self.detail_scroll_horizontal as nat,
        }
    }
}

impl Default for AppState {
    fn default() -> (state: Self)
        ensures
            state@ == AppStateView::initial(),
    {
        Self::new()
    }
}

impl AppState {
    /// The state at the start of a session.
    pub fn new() -> (state: Self)
        ensures
            state@ == AppStateView::initial(),
    {
        Self {
            horizontal_offset: 0,
            vertical_offset: 0,
            tree_scroll_offset: 0,
            data_vertical_scroll: 0,
            visible_data_rows: DEFAULT_VISIBLE_DATA_ROWS,
            overlay: Overlay::Normal,
            search_query: String::new(),
            filter: None,
            sql_query: String::new(),
            sql_result: None,
            detail_scroll_offset: 0,
            detail_scroll_horizontal: 0,
        }
    }

    /// In every state a filter is active exactly when filtered rows are held.
    pub proof fn lemma_filter_paired(self)
        ensures
            self@.filter_paired(),
    {
    }

    /// In every state at most one of search entry and the row-detail pane is
    /// open.
    pub proof fn lemma_one_overlay(self)
        ensures
            self@.one_overlay(),
    {
    }

    /// Zeroes the four base offsets and leaves the rest as it is.
    pub fn reset(&mut self)
        ensures
            final(self)@ == old(self)@.reset(),
    {
        self.horizontal_offset = 0;
        self.vertical_offset = 0;
        self.tree_scroll_offset = 0;
        self.data_vertical_scroll = 0;
    }

    /// Drops the filter together with the rows that passed it.
    pub fn clear_search_filter(&mut self)
        ensures
            final(self)@ == old(self)@.clear_search_filter(),
    {
        self.filter = None;
    }

    /// The horizontal selection.
    pub fn horizontal_offset(&self) -> (r: usize)
        ensures
            r == self@.horizontal_offset,
    {
        self.horizontal_offset
    }

    /// The vertical selection.
    pub fn vertical_offset(&self) -> (r: usize)
        ensures
            r == self@.vertical_offset,
    {
        self.vertical_offset
    }

    /// Moves the vertical selection one step down.
    pub fn down(&mut self)
        requires
            old(self)@.vertical_offset < usize::MAX,
        ensures
            final(self)@ == old(self)@.down(),
    {
        self.vertical_offset += 1;
    }

    /// Moves the vertical selection one step up, stopping at zero.
    pub fn up(&mut self)
        ensures
            final(self)@ == old(self)@.up(),
    {
        self.vertical_offset = self.vertical_offset.saturating_sub(1);
    }

    /// Moves the horizontal selection one step right.
    pub fn right(&mut self)
        requires
            old(self)@.horizontal_offset < usize::MAX,
        ensures
            final(self)@ == old(self)@.right(),
    {
        self.horizontal_offset += 1;
    }

    /// Moves the horizontal selection one step left, stopping at zero.
    pub fn left(&mut self)
        ensures
            final(self)@ == old(self)@.left(),
    {
        self.horizontal_offset = self.horizontal_offset.saturating_sub(1);
    }

    /// The first visible line of the column tree.
    pub fn tree_scroll_offset(&self) -> (r: usize)
        ensures
            r == self@.tree_scroll_offset,
    {
        self.tree_scroll_offset
    }

    /// Scrolls the column tree one line up, stopping at zero.
    pub fn tree_scroll_up(&mut self)
        ensures
            final(self)@ == old(self)@.tree_scroll_up(),
    {
        self.tree_scroll_offset = self.tree_scroll_offset.saturating_sub(1);
    }

    /// Scrolls the column tree one line down.
    pub fn tree_scroll_down(&mut self)
        requires
            old(self)@.tree_scroll_offset < usize::MAX,
        ensures
            final(self)@ == old(self)@.tree_scroll_down(),
    {
        self.tree_scroll_offset += 1;
    }

    /// The first visible row of the data table.
    pub fn data_vertical_scroll(&self) -> (r: usize)
        ensures
            r == self@.data_vertical_scroll,
    {
        self.data_vertical_scroll
    }

    /// Scrolls the data table to `scroll`.
    pub fn set_data_vertical_scroll(&mut self, scroll: usize)
        ensures
            final(self)@ == old(self)@.with_data_vertical_scroll(scroll as nat),
    {
        self.data_vertical_scroll = scroll;
    }

    /// The number of data rows that fit on the screen.
    pub fn visible_data_rows(&self) -> (r: usize)
        ensures
            r == self@.visible_data_rows,
    {
        self.visible_data_rows
    }

    /// Sizes the data window to `rows` rows.
    pub fn set_visible_data_rows(&mut self, rows: usize)
        ensures
            final(self)@ == old(self)@.with_visible_data_rows(rows as nat),
    {
        self.visible_data_rows = rows;
    }

    /// Moves the selection up by `visible_rows` and scrolls the table to it.
    pub fn page_up(&mut self, visible_rows: usize, max_rows: usize)
        ensures
            final(self)@ == old(self)@.page_up(visible_rows as nat, max_rows as nat),
    {
        self.vertical_offset = self.vertical_offset.saturating_sub(visible_rows);
        self.adjust_scroll_to_selection(visible_rows, max_rows);
    }

    /// Moves the selection down by `visible_rows`, at most to the last of
    /// `max_rows` rows, and scrolls the table to it.
    pub fn page_down(&mut self, visible_rows: usize, max_rows: usize)
        ensures
            final(self)@ == old(self)@.page_down(visible_rows as nat, max_rows as nat),
    {
        let target: usize = self.vertical_offset.saturating_add(visible_rows);
        let last: usize = max_rows.saturating_sub(1);
        self.vertical_offset = if target < last {
            target
        } else {
            last
        };
        self.adjust_scroll_to_selection(visible_rows, max_rows);
    }

    /// Brings the selected row back inside a table of `total_rows` rows.
    pub fn clamp_selection(&mut self, total_rows: usize)
        ensures
            final(self)@ == old(self)@.clamp_selection(total_rows as nat),
            total_rows > 0 ==> final(self)@.vertical_offset < total_rows,
    {
        let last: usize = total_rows.saturating_sub(1);
        if self.vertical_offset > last {
            self.vertical_offset = last;
        }
    }

    /// Scrolls the data table so that the selected row is in the window of
    /// `visible_rows` rows, and the window inside the `max_rows` rows.
    pub fn adjust_scroll_to_selection(&mut self, visible_rows: usize, max_rows: usize)
        ensures
            final(self)@ == old(self)@.adjust_scroll_to_selection(
                visible_rows as nat,
                max_rows as nat,
            ),
            visible_rows > 0 && old(self)@.vertical_offset < max_rows ==> ({
                let t = final(self)@;
                t.data_vertical_scroll <= t.vertical_offset < t.data_vertical_scroll + visible_rows
            }),
            final(self)@.data_vertical_scroll <= max_scroll(visible_rows as nat, max_rows as nat),
    {
        self.data_vertical_scroll =
        sync_scroll(self.vertical_offset, self.data_vertical_scroll, visible_rows, max_rows);
    }

    /// Whether the search line is being edited.
    pub fn search_mode(&self) -> (r: bool)
        ensures
            r == self@.search_mode,
    {
        match self.overlay {
            Overlay::SearchEntry => true,
            _ => false,
        }
    }

    /// The search line.
    pub fn search_query(&self) -> (r: &String)
        ensures
            r@ == self@.search_query,
    {
        &self.search_query
    }

    /// The search text by which the sample rows are filtered, if any.
    pub fn search_filter(&self) -> (r: Option<&String>)
        ensures
            match r {
                Some(query) => self@.search_filter == Some(query@),
                None => self@.search_filter is None,
            },
    {
        match &self.filter {
            Some(filter) => Some(&filter.query),
            None => None,
        }
    }

    /// The sample rows that passed the filter, if one is active.
    pub fn filtered_sample_data(&self) -> (r: Option<&ParquetSampleData>)
        ensures
            match r {
                Some(data) => self@.filtered_sample_data == Some(data@),
                None => self@.filtered_sample_data is None,
            },
    {
        match &self.filter {
            Some(filter) => Some(&filter.rows),
            None => None,
        }
    }

    /// The query line.
    pub fn sql_query(&self) -> (r: &String)
        ensures
            r@ == self@.sql_query,
    {
        &self.sql_query
    }

    /// The outcome of the last query, if one ran.
    pub fn sql_result(&self) -> (r: Option<&SqlResult>)
        ensures
            match r {
                Some(result) => self@.sql_result == Some(result@),
                None => self@.sql_result is None,
            },
    {
        match &self.sql_result {
            Some(result) => Some(result),
            None => None,
        }
    }

    /// The row shown in the row-detail pane, if the pane is open.
    pub fn row_detail_row(&self) -> (r: Option<usize>)
        ensures
            match r {
                Some(row) => self@.row_detail_row == Some(row as nat),
                None => self@.row_detail_row is None,
            },
    {
        match self.overlay {
            Overlay::RowDetail(row) => Some(row),
            _ => None,
        }
    }

    /// The first visible line of the row-detail pane.
    pub fn detail_scroll_offset(&self) -> (r: usize)
        ensures
            r == self@.detail_scroll_offset,
    {
        self.detail_scroll_offset
    }

    /// The first visible column of the row-detail pane.
    pub fn detail_scroll_horizontal(&self) -> (r: usize)
        ensures
            r == self@.detail_scroll_horizontal,
    {
        self.detail_scroll_horizontal
    }

    /// Begins search entry on an empty search line.
    pub fn start_search(&mut self)
        ensures
            final(self)@ == old(self)@.start_search(),
    {
        self.overlay = Overlay::SearchEntry;
        self.search_query.clear();
    }

    /// Leaves search entry and discards the search line; the filter stays.
    pub fn cancel_search(&mut self)
        ensures
            final(self)@ == old(self)@.cancel_search(),
    {
        if self.search_mode() {
            self.overlay = Overlay::Normal;
        }
        self.search_query.clear();
    }

    /// Leaves search entry and makes the search line the filter: the rows of
    /// `source` that match it are held, and the base offsets start over.
    pub fn commit_search(&mut self, source: &ParquetSampleData)
        ensures
            final(self)@ == old(self)@.commit_search(source@),
    {
        let query = self.search_query.clone();
        let rows = source.filter_rows(query.as_str());
        self.filter = Some(ActiveFilter { query, rows });
        self.reset();
        self.overlay = Overlay::Normal;
    }

    /// Appends a character to the search line.
    pub fn push_search_char(&mut self, c: char)
        ensures
            final(self)@ == old(self)@.push_search_char(c),
    {
        self.search_query.push(c);
    }

    /// Removes the last character of the search line, if there is one.
    pub fn pop_search_char(&mut self)
        ensures
            final(self)@ == old(self)@.pop_search_char(),
    {
        self.search_query.pop();
    }

    /// Appends a character to the query line.
    pub fn push_sql_char(&mut self, c: char)
        ensures
            final(self)@ == old(self)@.push_sql_char(c),
    {
        self.sql_query.push(c);
    }

    /// Removes the last character of the query line, if there is one.
    pub fn pop_sql_char(&mut self)
        ensures
            final(self)@ == old(self)@.pop_sql_char(),
    {
        self.sql_query.pop();
    }

    /// Empties the query line and forgets the last outcome.
    pub fn clear_sql(&mut self)
        ensures
            final(self)@ == old(self)@.clear_sql(),
    {
        self.sql_query.clear();
        self.sql_result = None;
    }

    /// Records the outcome of a query.
    pub fn set_sql_result(&mut self, result: SqlResult)
        ensures
            final(self)@ == old(self)@.with_sql_result(result@),
    {
        self.sql_result = Some(result);
    }

    /// Opens the row-detail pane on `row`, scrolled to its start.
    pub fn open_row_detail(&mut self, row: usize)
        ensures
            final(self)@ == old(self)@.open_row_detail(row as nat),
    {
        self.overlay = Overlay::RowDetail(row);
        self.detail_scroll_offset = 0;
        self.detail_scroll_horizontal = 0;
    }

    /// Closes the row-detail pane.
    pub fn close_row_detail(&mut self)
        ensures
            final(self)@ == old(self)@.close_row_detail(),
    {
        if self.row_detail_row().is_some() {
            self.overlay = Overlay::Normal;
        }
    }

    /// Scrolls the row-detail pane up by `lines`, stopping at zero.
    pub fn detail_scroll_up(&mut self, lines: usize)
        ensures
            final(self)@ == old(self)@.detail_scroll_up(lines as nat),
    {
        self.detail_scroll_offset = self.detail_scroll_offset.saturating_sub(lines);
    }

    /// Scrolls the row-detail pane down by `lines`, stopping at the largest
    /// machine word.
    pub fn detail_scroll_down(&mut self, lines: usize)
        ensures
            final(self)@ == old(self)@.detail_scroll_down(lines as nat),
    {
        self.detail_scroll_offset = self.detail_scroll_offset.saturating_add(lines);
    }

    /// Scrolls the row-detail pane one column left, stopping at zero.
    pub fn detail_scroll_left(&mut self)
        ensures
            final(self)@ == old(self)@.detail_scroll_left(),
    {
        self.detail_scroll_horizontal = self.detail_scroll_horizontal.saturating_sub(1);
    }

    /// Scrolls the row-detail pane one column right, stopping at the largest
    /// machine word.
    pub fn detail_scroll_right(&mut self)
        ensures
            final(self)@ == old(self)@.detail_scroll_right(),
    {
        self.detail_scroll_horizontal = self.detail_scroll_horizontal.saturating_add(1);
    }
}

/// Paging down and then up by the same amount brings the selection back,
/// as long as the step down did not reach the last row.
pub proof fn lemma_page_down_then_up(s: AppStateView, visible_rows: nat, max_rows: nat)
    requires
        s.vertical_offset + visible_rows <= max_rows - 1,
    ensures
        s.page_down(visible_rows, max_rows).page_up(visible_rows, max_rows).vertical_offset
            == s.vertical_offset,
{
}

/// Clearing the filter twice is the same as clearing it once.
pub proof fn lemma_clear_search_filter_idempotent(s: AppStateView)
    ensures
        s.clear_search_filter().clear_search_filter() == s.clear_search_filter(),
{
}

} // verus!
