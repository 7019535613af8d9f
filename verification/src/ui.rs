//! What a frame shows: which panel, which footer, which lines of a row, and
//! where each scrolled list starts. Drawing is left to the caller.

use crate::coordinator::AppRenderView;
use crate::parquet_ctx::{lemma_primitive_count_monotonic, primitive_count, SchemaInfo};
use crate::sample_data::SampleDataView;
use crate::sql::{SqlResult, SqlResultView};
use crate::state::{lesser, saturating_diff, AppStateView};
use crate::tabs::{Instruction, InstructionView, Tab};
use crate::viewport::{sync_scroll, synced_scroll};
use ratatui::text::{Line, Span};
use vstd::prelude::*;

verus! {

/// The width of a text on screen, in terminal cells, as `Line::width` of
/// ratatui measures a line that holds the text in one span. It depends on the
/// text alone.
pub uninterp spec fn display_width(text: Seq<char>) -> nat;

/// `Line::width` of the line `Line::from(Span::raw(text))`: the sum of the
/// widths of its spans, here of the one span, which is the Unicode width of
/// the text.
#[verifier::external_body]
fn line_width(text: &str) -> (width: usize)
    ensures
        width == display_width(text@),
{
    Line::from(Span::raw(text)).width()
}

/// Line `i` of the column tree is its `n`-th leaf, counting from one.
pub open spec fn is_nth_primitive(lines: Seq<SchemaInfo>, i: int, n: nat) -> bool {
    &&& 0 <= i < lines.len()
    &&& lines[i] is Primitive
    &&& primitive_count(lines.take(i)) + 1 == n
}

/// No two lines of a column tree are the same leaf.
pub proof fn lemma_nth_primitive_unique(lines: Seq<SchemaInfo>, i: int, j: int, n: nat)
    requires
        is_nth_primitive(lines, i, n),
        is_nth_primitive(lines, j, n),
    ensures
        i == j,
{
    if i < j {
        lemma_primitive_count_monotonic(lines, i + 1, j);
        assert(lines.take(i + 1).drop_last() =~= lines.take(i));
    } else if j < i {
        lemma_primitive_count_monotonic(lines, j + 1, i);
        assert(lines.take(j + 1).drop_last() =~= lines.take(j));
    }
}

/// The line of the column tree that holds the selected leaf column. Selection
/// 0 is the header and selects no line; selection `k` is the `k`-th leaf.
pub fn calculate_selected_tree_index(schema: &Vec<SchemaInfo>, vertical_offset: usize) -> (r:
    Option<usize>)
    ensures
        match r {
            Some(i) => is_nth_primitive(schema@, i as int, vertical_offset as nat),
            None => vertical_offset == 0 || vertical_offset > primitive_count(schema@),
        },
{
    if vertical_offset == 0 {
        return None;
    }
    let mut seen: usize = 0;
    let mut i: usize = 0;
    assert(schema@.take(0) =~= Seq::empty());
    while i < schema.len()
        invariant
            i <= schema.len(),
            seen == primitive_count(schema@.take(i as int)),
            seen < vertical_offset,
        decreases schema.len() - i,
    {
        assert(schema@.take(i + 1).drop_last() =~= schema@.take(i as int));
        match schema[i] {
            SchemaInfo::Primitive => {
                if seen + 1 == vertical_offset {
                    return Some(i);
                }
                seen += 1;
            },
            SchemaInfo::Group => {},
        }
        i += 1;
    }
    assert(schema@.take(i as int) =~= schema@);
    None
}

/// Where a list scrolled to `current_scroll` starts once it shows the
/// selected item; with nothing selected it stays where it is.
pub open spec fn scroll_to_show_item(
    selected: Option<nat>,
    current_scroll: nat,
    visible_items: nat,
    total_items: nat,
) -> nat {
    match selected {
        Some(idx) => synced_scroll(idx, current_scroll, visible_items, total_items),
        None => current_scroll,
    }
}

/// Scrolls a list of `total_items` items, `visible_items` of them on screen,
/// so that it shows the selected item.
pub fn calculate_scroll_to_show_item(
    selected_tree_idx: Option<usize>,
    current_scroll: usize,
    visible_items: usize,
    total_items: usize,
) -> (r: usize)
    ensures
        r == scroll_to_show_item(
            match selected_tree_idx {
                Some(idx) => Some(idx as nat),
                None => None,
            },
            current_scroll as nat,
            visible_items as nat,
            total_items as nat,
        ),
{
    match selected_tree_idx {
        Some(idx) => sync_scroll(idx, current_scroll, visible_items, total_items),
        None => current_scroll,
    }
}

/// The cells beside the column tree: two for scrollbar and spacing when the
/// tree has a scrollbar, else `spacing`.
pub open spec fn tree_margin(needs_scrollbar: bool, spacing: nat) -> nat {
    if needs_scrollbar {
        2
    } else {
        spacing
    }
}

/// The width of the column tree with its spacing, and with its scrollbar when
/// it has one.
pub fn calculate_tree_width(tree_width: u16, needs_scrollbar: bool) -> (r: u16)
    requires
        tree_width + tree_margin(needs_scrollbar, 1) <= u16::MAX,
    ensures
        r == tree_width + tree_margin(needs_scrollbar, 1),
{
    if needs_scrollbar {
        tree_width + 2
    } else {
        tree_width + 1
    }
}

/// The width of the column tree in the row-group view, which leaves out the
/// spacing when there is no scrollbar.
pub fn calculate_tree_width_for_row_groups(tree_width: u16, needs_scrollbar: bool) -> (r: u16)
    requires
        tree_width + tree_margin(needs_scrollbar, 0) <= u16::MAX,
    ensures
        r == tree_width + tree_margin(needs_scrollbar, 0),
{
    if needs_scrollbar {
        tree_width + 2
    } else {
        tree_width
    }
}

/// How the column tree is laid out in an area.
#[derive(Clone, Copy, Debug, PartialEq, Eq, Structural)]
pub struct TreeLayout {
    /// The number of lines of the tree.
    pub total_tree_items: usize,
    /// The number of lines that fit inside the border.
    pub visible_tree_items: usize,
    pub needs_scrollbar: bool,
    /// The first line on show.
    pub adjusted_scroll: usize,
    /// The width of the tree with spacing and scrollbar.
    pub tree_total_width: u16,
}

/// The number of lines that the border leaves of an area.
pub open spec fn lines_inside_border(area_height: u16) -> nat {
    saturating_diff(area_height as nat, 2)
}

/// What the body of a frame shows.
#[derive(Clone, Copy, Debug, PartialEq, Eq, Structural)]
pub enum Panel {
    RowDetail,
    Metadata,
    Schema,
    RowGroups,
    Visualize,
    Sql,
}

/// The panel for a state and the view on show: the row-detail pane covers
/// every view while it is open.
pub open spec fn panel_for(s: AppStateView, tab: Tab) -> Panel {
    if s.row_detail_row is Some {
        Panel::RowDetail
    } else {
        match tab {
            Tab::Metadata(_) => Panel::Metadata,
            Tab::Schema(_) => Panel::Schema,
            Tab::RowGroups(_) => Panel::RowGroups,
            Tab::Visualize(_) => Panel::Visualize,
            Tab::Sql(_) => Panel::Sql,
        }
    }
}

/// What the row-group view shows beside the tree.
#[derive(Clone, Copy, Debug, PartialEq, Eq, Structural)]
pub enum RowGroupPanel {
    /// The figures of a row group as a whole.
    Aggregate { row_group: usize },
    /// The figures of one column of a row group.
    Column { row_group: usize, column: usize },
}

/// What the row-group view shows for a selection, if the file has it:
/// vertical selection 0 is the row group as a whole, `k` its column `k - 1`.
pub open spec fn row_group_panel_for(
    horizontal_offset: nat,
    vertical_offset: nat,
    num_row_groups: nat,
    num_columns: nat,
) -> Option<RowGroupPanel> {
    if horizontal_offset >= num_row_groups || vertical_offset > num_columns {
        None
    } else if vertical_offset == 0 {
        Some(RowGroupPanel::Aggregate { row_group: horizontal_offset as usize })
    } else {
        Some(
            RowGroupPanel::Column {
                row_group: horizontal_offset as usize,
                column: (vertical_offset - 1) as usize,
            },
        )
    }
}

/// What the footer of a frame shows.
pub enum Footer {
    /// The search line being edited.
    Search { prompt: String },
    /// The hints of the view, and how many rows passed the active filter.
    Filtered { instructions: Vec<Instruction>, rows: usize },
    /// The hints of the view.
    Instructions { instructions: Vec<Instruction> },
}

/// The mathematical content of a footer.
#[verifier::ext_equal]
pub enum FooterView {
    Search { prompt: Seq<char> },
    Filtered { instructions: Seq<InstructionView>, rows: nat },
    Instructions { instructions: Seq<InstructionView> },
}

impl DeepView for Footer {
    type V = FooterView;

    open spec fn deep_view(&self) -> FooterView {
        match self {
            Footer::Search { prompt } => FooterView::Search { prompt: prompt@ },
            Footer::Filtered { instructions, rows } => FooterView::Filtered {
                instructions: instructions.deep_view(),
                rows: *rows as nat,
            },
            Footer::Instructions { instructions } => FooterView::Instructions {
                instructions: instructions.deep_view(),
            },
        }
    }
}

/// The search line as the footer shows it, with its cursor.
pub open spec fn search_prompt(query: Seq<char>) -> Seq<char> {
    "Search: "@ + query + "|"@
}

/// The query line as the query view shows it.
pub open spec fn sql_prompt(query: Seq<char>) -> Seq<char> {
    "SQL> "@ + query
}

/// The width of the text that stands before the query in the query line.
pub const SQL_PROMPT_WIDTH: u16 = 5;

/// The footer for a state and the view on show.
pub open spec fn footer_for(s: AppStateView, tab: Tab) -> FooterView {
    if s.search_mode {
        FooterView::Search { prompt: search_prompt(s.search_query) }
    } else if s.search_filter is Some {
        FooterView::Filtered {
            instructions: tab.instructions_spec(),
            rows: match s.filtered_sample_data {
                Some(data) => data.rows.len(),
                None => 0,
            },
        }
    } else {
        FooterView::Instructions { instructions: tab.instructions_spec() }
    }
}

/// Where the row shown in the row-detail pane comes from.
#[derive(Clone, Copy, Debug, PartialEq, Eq, Structural)]
pub enum DetailSource {
    /// The sample table.
    Visualize,
    /// The outcome of a query.
    Sql,
}

/// The title of the row-detail pane.
#[derive(Clone, Copy, Debug, PartialEq, Eq, Structural)]
pub enum DetailTitle {
    /// A row, numbered from one, and where it comes from.
    Row { number: usize, source: DetailSource },
    /// No row could be shown.
    Plain,
}

/// The content of the row-detail pane before scrolling.
pub struct DetailContent {
    pub title: DetailTitle,
    pub lines: Vec<String>,
}

/// The mathematical content of the row-detail pane before scrolling.
#[verifier::ext_equal]
pub struct DetailContentView {
    pub title: DetailTitle,
    pub lines: Seq<Seq<char>>,
}

impl DeepView for DetailContent {
    type V = DetailContentView;

    open spec fn deep_view(&self) -> DetailContentView {
        DetailContentView { title: self.title, lines: self.lines.deep_view() }
    }
}

/// One line per column that the row has a cell for: the column name, a colon
/// and the cell.
pub open spec fn detail_lines(columns: Seq<Seq<char>>, row: Seq<Seq<char>>) -> Seq<Seq<char>> {
    Seq::new(
        lesser(columns.len(), row.len()),
        |i: int| columns[i] + ": "@ + row[i],
    )
}

/// The row-detail pane for row `row_idx` of `data`.
pub open spec fn detail_of_row(
    data: SampleDataView,
    row_idx: nat,
    source: DetailSource,
) -> DetailContentView {
    if row_idx < data.rows.len() {
        DetailContentView {
            title: DetailTitle::Row { number: (row_idx + 1) as usize, source },
            lines: detail_lines(data.columns, data.rows[row_idx as int]),
        }
    } else {
        DetailContentView { title: DetailTitle::Plain, lines: seq!["Row out of range"@] }
    }
}

/// The row-detail pane for a state and the view on show, if it is open.
pub open spec fn detail_for(s: AppStateView, tab: Tab, sample: SampleDataView) -> Option<
    DetailContentView,
> {
    match s.row_detail_row {
        None => None,
        Some(row_idx) => Some(
            match tab {
                Tab::Visualize(_) => detail_of_row(
                    match s.filtered_sample_data {
                        Some(filtered) => filtered,
                        None => sample,
                    },
                    row_idx,
                    DetailSource::Visualize,
                ),
                Tab::Sql(_) => match s.sql_result {
                    Some(SqlResultView::Success(data)) => detail_of_row(
                        data,
                        row_idx,
                        DetailSource::Sql,
                    ),
                    _ => DetailContentView {
                        title: DetailTitle::Plain,
                        lines: seq!["No result data"@],
                    },
                },
                _ => DetailContentView { title: DetailTitle::Plain, lines: seq!["No data"@] },
            },
        ),
    }
}

/// The width of the widest of some lines; zero when there is none.
pub open spec fn max_line_width(lines: Seq<Seq<char>>) -> nat
    decreases lines.len(),
{
    if lines.len() == 0 {
        0
    } else {
        let rest = max_line_width(lines.drop_last());
        let last = display_width(lines.last());
        if last > rest {
            last
        } else {
            rest
        }
    }
}

/// A scroll offset held to what a window of `window` cells leaves of
/// `content` cells, as a 16-bit number: of a larger number the low 16 bits.
pub open spec fn clamped_scroll(offset: nat, content: nat, window: u16) -> u16 {
    lesser(offset, saturating_diff(content, window as nat)) as u16
}

/// Holds a scroll offset to what the window leaves of the content.
pub fn clamp_scroll(offset: usize, content: usize, window: u16) -> (r: u16)
    ensures
        r == clamped_scroll(offset as nat, content as nat, window),
        offset <= u16::MAX || content <= u16::MAX ==> r == lesser(
            offset as nat,
            saturating_diff(content as nat, window as nat),
        ),
{
    let max: usize = content.saturating_sub(window as usize);
    let held: usize = if offset < max {
        offset
    } else {
        max
    };
    #[verifier::truncate]
    (held as u16)
}

/// The lines of a row in the row-detail pane.
pub fn row_detail_lines(columns: &Vec<String>, row: &Vec<String>) -> (lines: Vec<String>)
    ensures
        lines.deep_view() == detail_lines(columns.deep_view(), row.deep_view()),
{
    let n: usize = if columns.len() <= row.len() {
        columns.len()
    } else {
        row.len()
    };
    let mut lines: Vec<String> = Vec::new();
    let mut i: usize = 0;
    while i < n
        invariant
            i <= n,
            n == lesser(columns.len() as nat, row.len() as nat),
            lines.len() == i,
            forall|j: int|
                0 <= j < i ==> (#[trigger] lines[j])@ == columns[j]@ + ": "@ + row[j]@,
        decreases n - i,
    {
        let mut line = columns[i].clone();
        line.append(": ");
        line.append(row[i].as_str());
        lines.push(line);
        i += 1;
    }
    assert(lines.deep_view() =~= detail_lines(columns.deep_view(), row.deep_view()));
    lines
}

/// The width of the widest of some lines.
pub fn widest_line(lines: &Vec<String>) -> (width: usize)
    ensures
        width == max_line_width(lines.deep_view()),
{
    let mut width: usize = 0;
    let mut i: usize = 0;
    assert(lines.deep_view().take(0) =~= Seq::empty());
    while i < lines.len()
        invariant
            i <= lines.len(),
            width == max_line_width(lines.deep_view().take(i as int)),
        decreases lines.len() - i,
    {
        assert(lines.deep_view().take(i + 1).drop_last() =~= lines.deep_view().take(i as int));
        let w = line_width(lines[i].as_str());
        if w > width {
            width = w;
        }
        i += 1;
    }
    assert(lines.deep_view().take(i as int) =~= lines.deep_view());
    width
}

/// The one line of a pane that shows only a message.
fn message_lines(message: &str) -> (lines: Vec<String>)
    ensures
        lines.deep_view() == seq![message@],
{
    let mut lines: Vec<String> = Vec::new();
    lines.push(message.to_owned());
    assert(lines.deep_view() =~= seq![message@]);
    lines
}

/// The row-detail pane for row `row_idx` of `data`.
fn row_detail_of(
    data: &crate::sample_data::ParquetSampleData,
    row_idx: usize,
    source: DetailSource,
) -> (content: DetailContent)
    ensures
        content.deep_view() == detail_of_row(data@, row_idx as nat, source),
{
    let total_rows = data.total_rows();
    match data.row(row_idx) {
        Some(row) => DetailContent {
            title: DetailTitle::Row { number: row_idx + 1, source },
            lines: row_detail_lines(data.flattened_columns(), row),
        },
        None => DetailContent {
            title: DetailTitle::Plain,
            lines: message_lines("Row out of range"),
        },
    }
}

impl<'a> AppRenderView<'a> {
    /// The rows on show in the sample table: those that passed the filter
    /// when one is active, else all sample rows.
    pub fn visible_sample_data(&self) -> (data: &crate::sample_data::ParquetSampleData)
        ensures
            data@ == match self.state@.filtered_sample_data {
                Some(filtered) => filtered,
                None => self.parquet_ctx.sample_data@,
            },
    {
        match self.state.filtered_sample_data() {
            Some(filtered) => filtered,
            None => &self.parquet_ctx.sample_data,
        }
    }

    /// What the body of the frame shows.
    pub fn panel(&self) -> (r: Panel)
        ensures
            r == panel_for(self.state@, self.tabs@.active_tab()),
    {
        if self.state.row_detail_row().is_some() {
            Panel::RowDetail
        } else {
            match self.tabs.active_tab() {
                Tab::Metadata(_) => Panel::Metadata,
                Tab::Schema(_) => Panel::Schema,
                Tab::RowGroups(_) => Panel::RowGroups,
                Tab::Visualize(_) => Panel::Visualize,
                Tab::Sql(_) => Panel::Sql,
            }
        }
    }

    /// What the footer of the frame shows.
    pub fn footer(&self) -> (r: Footer)
        ensures
            r.deep_view() == footer_for(self.state@, self.tabs@.active_tab()),
    {
        if self.state.search_mode() {
            let mut prompt = "Search: ".to_owned();
            prompt.append(self.state.search_query().as_str());
            prompt.append("|");
            Footer::Search { prompt }
        } else if self.state.search_filter().is_some() {
            proof {
                self.state.lemma_filter_paired();
            }
            let rows: usize = match self.state.filtered_sample_data() {
                Some(data) => data.total_rows(),
                None => 0,
            };
            Footer::Filtered { instructions: self.tabs.active_tab().instructions(), rows }
        } else {
            Footer::Instructions { instructions: self.tabs.active_tab().instructions() }
        }
    }

    /// The first line of the column tree to show, so that the selected column
    /// is among the `visible_tree_items` lines on screen.
    pub fn calculate_adjusted_scroll_offset(&self, visible_tree_items: usize) -> (r: usize)
        ensures
            r == scroll_to_show_item(
                calculate_selected_tree_index_spec(
                    self.parquet_ctx.schema@,
                    self.state@.vertical_offset,
                ),
                self.state@.tree_scroll_offset,
                visible_tree_items as nat,
                self.parquet_ctx.schema@.len(),
            ),
    {
        let selected_tree_idx = calculate_selected_tree_index(
            &self.parquet_ctx.schema,
            self.state.vertical_offset(),
        );
        proof {
            lemma_selected_tree_index(
                self.parquet_ctx.schema@,
                self.state@.vertical_offset,
                match selected_tree_idx {
                    Some(i) => Some(i as nat),
                    None => None,
                },
            );
        }
        calculate_scroll_to_show_item(
            selected_tree_idx,
            self.state.tree_scroll_offset(),
            visible_tree_items,
            self.parquet_ctx.schema.len(),
        )
    }

    /// The layout of the column tree in the schema view, in an area of
    /// `area_height` lines.
    pub fn schema_tree_layout(&self, area_height: u16) -> (r: TreeLayout)
        requires
            self.parquet_ctx.tree_width + tree_margin(self.tree_needs_scrollbar(area_height), 1)
                <= u16::MAX,
        ensures
            r == self.tree_layout_spec(area_height, 1),
    {
        let total_tree_items = self.parquet_ctx.schema.len();
        let visible_tree_items = area_height.saturating_sub(2) as usize;
        let needs_scrollbar = total_tree_items > visible_tree_items;
        let adjusted_scroll = self.calculate_adjusted_scroll_offset(visible_tree_items);
        let tree_total_width = calculate_tree_width(self.parquet_ctx.tree_width, needs_scrollbar);
        TreeLayout {
            total_tree_items,
            visible_tree_items,
            needs_scrollbar,
            adjusted_scroll,
            tree_total_width,
        }
    }

    /// The layout of the column tree in the row-group view, in an area of
    /// `area_height` lines.
    pub fn row_groups_tree_layout(&self, area_height: u16) -> (r: TreeLayout)
        requires
            self.parquet_ctx.tree_width + tree_margin(self.tree_needs_scrollbar(area_height), 0)
                <= u16::MAX,
        ensures
            r == self.tree_layout_spec(area_height, 0),
    {
        let total_tree_items = self.parquet_ctx.schema.len();
        let visible_tree_items = area_height.saturating_sub(2) as usize;
        let needs_scrollbar = total_tree_items > visible_tree_items;
        let adjusted_scroll = self.calculate_adjusted_scroll_offset(visible_tree_items);
        let tree_total_width = calculate_tree_width_for_row_groups(
            self.parquet_ctx.tree_width,
            needs_scrollbar,
        );
        TreeLayout {
            total_tree_items,
            visible_tree_items,
            needs_scrollbar,
            adjusted_scroll,
            tree_total_width,
        }
    }

    /// Whether the column tree has more lines than fit an area of
    /// `area_height` lines.
    pub open spec fn tree_needs_scrollbar(&self, area_height: u16) -> bool {
        self.parquet_ctx.schema@.len() > lines_inside_border(area_height)
    }

    /// The layout of the column tree in an area of `area_height` lines, with
    /// `spacing` cells beside a tree that has no scrollbar.
    pub open spec fn tree_layout_spec(&self, area_height: u16, spacing: nat) -> TreeLayout {
        let total = self.parquet_ctx.schema@.len();
        let visible = lines_inside_border(area_height);
        TreeLayout {
            total_tree_items: total as usize,
            visible_tree_items: visible as usize,
            needs_scrollbar: self.tree_needs_scrollbar(area_height),
            adjusted_scroll: scroll_to_show_item(
                calculate_selected_tree_index_spec(
                    self.parquet_ctx.schema@,
                    self.state@.vertical_offset,
                ),
                self.state@.tree_scroll_offset,
                visible,
                total,
            ) as usize,
            tree_total_width: (self.parquet_ctx.tree_width + tree_margin(
                self.tree_needs_scrollbar(area_height),
                spacing,
            )) as u16,
        }
    }

    /// What the row-group view shows beside the tree, if the file has what is
    /// selected.
    pub fn row_group_panel(&self) -> (r: Option<RowGroupPanel>)
        ensures
            r == row_group_panel_for(
                self.state@.horizontal_offset,
                self.state@.vertical_offset,
                self.parquet_ctx.num_row_groups as nat,
                primitive_count(self.parquet_ctx.schema@),
            ),
    {
        let h = self.state.horizontal_offset();
        let v = self.state.vertical_offset();
        if h >= self.parquet_ctx.num_row_groups || v > self.parquet_ctx.column_size() {
            None
        } else if v == 0 {
            Some(RowGroupPanel::Aggregate { row_group: h })
        } else {
            Some(RowGroupPanel::Column { row_group: h, column: v - 1 })
        }
    }

    /// The query line as the query view shows it.
    pub fn sql_prompt_line(&self) -> (line: String)
        ensures
            line@ == sql_prompt(self.state@.sql_query),
    {
        let mut line = "SQL> ".to_owned();
        line.append(self.state.sql_query().as_str());
        line
    }

    /// The column of the cursor at the end of the query line, in an input
    /// area that starts at column `inner_x` and is `inner_width` wide; `None`
    /// when the cursor is past the area.
    pub fn sql_cursor_x(&self, inner_x: u16, inner_width: u16) -> (r: Option<u16>)
        requires
            inner_x + inner_width <= u16::MAX,
        ensures
            match r {
                Some(x) => x == inner_x + SQL_PROMPT_WIDTH + self.state@.sql_query.len() && x
                    < inner_x + inner_width,
                None => SQL_PROMPT_WIDTH + self.state@.sql_query.len() >= inner_width,
            },
    {
        let typed: usize = self.state.sql_query().as_str().unicode_len();
        if inner_width > SQL_PROMPT_WIDTH && typed < (inner_width - SQL_PROMPT_WIDTH) as usize {
            Some(inner_x + SQL_PROMPT_WIDTH + typed as u16)
        } else {
            None
        }
    }

    /// The content of the row-detail pane, if it is open: the lines of the
    /// row under the selection, or a message when there is no such row.
    pub fn row_detail(&self) -> (r: Option<DetailContent>)
        ensures
            match r {
                Some(content) => Some(content.deep_view()) == detail_for(
                    self.state@,
                    self.tabs@.active_tab(),
                    self.parquet_ctx.sample_data@,
                ),
                None => detail_for(
                    self.state@,
                    self.tabs@.active_tab(),
                    self.parquet_ctx.sample_data@,
                ) is None,
            },
    {
        let row_idx = match self.state.row_detail_row() {
            Some(i) => i,
            None => {
                return None;
            },
        };
        let content = match self.tabs.active_tab() {
            Tab::Visualize(_) => row_detail_of(
                self.visible_sample_data(),
                row_idx,
                DetailSource::Visualize,
            ),
            Tab::Sql(_) => match self.state.sql_result() {
                Some(SqlResult::Success(data)) => row_detail_of(
                    data,
                    row_idx,
                    DetailSource::Sql,
                ),
                _ => DetailContent {
                    title: DetailTitle::Plain,
                    lines: message_lines("No result data"),
                },
            },
            _ => DetailContent { title: DetailTitle::Plain, lines: message_lines("No data") },
        };
        Some(content)
    }

    /// Where the row-detail pane starts, down and across, for content of the
    /// given lines in a pane of `inner_height` lines and `inner_width` cells.
    pub fn row_detail_scroll(&self, lines: &Vec<String>, inner_height: u16, inner_width: u16) -> (r:
        (u16, u16))
        ensures
            r.0 == clamped_scroll(
                self.state@.detail_scroll_offset,
                lines.deep_view().len(),
                inner_height,
            ),
            r.1 == clamped_scroll(
                self.state@.detail_scroll_horizontal,
                max_line_width(lines.deep_view()),
                inner_width,
            ),
    {
        let vertical = clamp_scroll(self.state.detail_scroll_offset(), lines.len(), inner_height);
        let horizontal = clamp_scroll(
            self.state.detail_scroll_horizontal(),
            widest_line(lines),
            inner_width,
        );
        (vertical, horizontal)
    }
}

/// The line of the column tree that holds the selected leaf column, if one is
/// selected and the tree has it.
pub open spec fn calculate_selected_tree_index_spec(
    lines: Seq<SchemaInfo>,
    vertical_offset: nat,
) -> Option<nat> {
    if exists|i: int| is_nth_primitive(lines, i, vertical_offset) {
        Some((choose|i: int| is_nth_primitive(lines, i, vertical_offset)) as nat)
    } else {
        None
    }
}

/// The selected line is the only line that is the selected leaf, and there is
/// none when the header is selected or the tree has fewer leaves.
pub proof fn lemma_selected_tree_index(
    lines: Seq<SchemaInfo>,
    vertical_offset: nat,
    found: Option<nat>,
)
    requires
        match found {
            Some(i) => is_nth_primitive(lines, i as int, vertical_offset),
            None => vertical_offset == 0 || vertical_offset > primitive_count(lines),
        },
    ensures
        calculate_selected_tree_index_spec(lines, vertical_offset) == found,
{
    match found {
        Some(i) => {
            let j = choose|j: int| is_nth_primitive(lines, j, vertical_offset);
            lemma_nth_primitive_unique(lines, i as int, j, vertical_offset);
        },
        None => {
            if exists|i: int| is_nth_primitive(lines, i, vertical_offset) {
                let i = choose|i: int| is_nth_primitive(lines, i, vertical_offset);
                lemma_primitive_count_monotonic(lines, i + 1, lines.len() as int);
                assert(lines.take(i + 1).drop_last() =~= lines.take(i));
                assert(lines.take(lines.len() as int) =~= lines);
            }
        },
    }
}

} // verus!
