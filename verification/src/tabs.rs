//! The views of the explorer: what each does with a key, which hints it
//! shows, and the order in which they are cycled.

use crate::keys::{KeyCode, KeyEvent};
use crate::sql::{SqlResult, SqlResultView};
use crate::state::{AppState, AppStateView};
use vstd::prelude::*;

verus! {

/// A hint for the footer: a shortcut and what it does.
pub struct Instruction {
    pub shortcut: String,
    pub label: String,
    /// Whether the shortcut is drawn in the accent colour.
    pub highlighted: bool,
}

/// The mathematical content of a hint.
pub struct InstructionView {
    pub shortcut: Seq<char>,
    pub label: Seq<char>,
    pub highlighted: bool,
}

impl DeepView for Instruction {
    type V = InstructionView;

    open spec fn deep_view(&self) -> InstructionView {
        InstructionView {
            shortcut: self.shortcut@,
            label: self.label@,
            highlighted: self.highlighted,
        }
    }
}

/// A hint with the given shortcut and label.
fn instruction(shortcut: &str, label: &str, highlighted: bool) -> (r: Instruction)
    ensures
        r.deep_view() == (InstructionView { shortcut: shortcut@, label: label@, highlighted }),
{
    Instruction { shortcut: shortcut.to_owned(), label: label.to_owned(), highlighted }
}

/// The file metadata view. It is read-only.
#[derive(Clone, Copy, Debug, PartialEq, Eq, Structural)]
pub struct MetadataTab;

/// The column tree view.
#[derive(Clone, Copy, Debug, PartialEq, Eq, Structural)]
pub struct SchemaTab {
    /// The number of leaf columns; selection 0 is the header.
    pub max_vertical: usize,
}

/// The row-group view: row groups side by side, columns top to bottom.
#[derive(Clone, Copy, Debug, PartialEq, Eq, Structural)]
pub struct RowGroupsTab {
    /// The number of row groups.
    pub max_horizontal: usize,
    /// The number of columns in a group; selection 0 is the group as a whole.
    pub max_vertical: usize,
}

/// The sample row table.
#[derive(Clone, Copy, Debug, PartialEq, Eq, Structural)]
pub struct VisualizeTab {
    /// The number of columns of the table.
    pub max_horizontal: usize,
    /// The number of sample rows, before any filter.
    pub max_vertical: usize,
}

/// The query view.
#[derive(Clone, Copy, Debug, PartialEq, Eq, Structural)]
pub struct SqlTab;

impl MetadataTab {
    /// The state after the view has handled a key.
    pub open spec fn on_event_spec(self, key: KeyEvent, s: AppStateView) -> AppStateView {
        s
    }

    /// No key changes anything here.
    pub fn on_event(&self, key_event: KeyEvent, state: &mut AppState)
        ensures
            final(state)@ == self.on_event_spec(key_event, old(state)@),
    {
    }

    /// The hints of the view.
    pub open spec fn instructions_spec() -> Seq<InstructionView> {
        Seq::empty()
    }

    /// The hints of the view.
    pub fn instructions(&self) -> (r: Vec<Instruction>)
        ensures
            r.deep_view() == Self::instructions_spec(),
    {
        let r: Vec<Instruction> = Vec::new();
        assert(r.deep_view() =~= Self::instructions_spec());
        r
    }

    /// The name of the view.
    pub fn to_string(&self) -> (r: String)
        ensures
            r@ == "Metadata"@,
    {
        "Metadata".to_owned()
    }
}

impl SchemaTab {
    /// The state after the view has handled a key.
    pub open spec fn on_event_spec(self, key: KeyEvent, s: AppStateView) -> AppStateView {
        match key.code {
            KeyCode::Down => if s.vertical_offset < self.max_vertical {
                s.down()
            } else {
                s
            },
            KeyCode::Up => s.up(),
            _ => s,
        }
    }

    /// Up and down move the selection over the header and the leaf columns.
    pub fn on_event(&self, key_event: KeyEvent, state: &mut AppState)
        ensures
            final(state)@ == self.on_event_spec(key_event, old(state)@),
    {
        match key_event.code {
            KeyCode::Down => {
                if state.vertical_offset() < self.max_vertical {
                    state.down();
                }
            },
            KeyCode::Up => {
                state.up();
            },
            _ => {},
        }
    }

    /// The hints of the view.
    pub open spec fn instructions_spec() -> Seq<InstructionView> {
        seq![
            InstructionView { shortcut: "Up/Down"@, label: "Select column"@, highlighted: true },
        ]
    }

    /// The hints of the view.
    pub fn instructions(&self) -> (r: Vec<Instruction>)
        ensures
            r.deep_view() == Self::instructions_spec(),
    {
        let mut r: Vec<Instruction> = Vec::new();
        r.push(instruction("Up/Down", "Select column", true));
        assert(r.deep_view() =~= Self::instructions_spec());
        r
    }

    /// The name of the view.
    pub fn to_string(&self) -> (r: String)
        ensures
            r@ == "Schema"@,
    {
        "Schema".to_owned()
    }
}

impl RowGroupsTab {
    /// The state after the view has handled a key.
    pub open spec fn on_event_spec(self, key: KeyEvent, s: AppStateView) -> AppStateView {
        match key.code {
            KeyCode::Right => if s.horizontal_offset + 1 < self.max_horizontal {
                s.right()
            } else {
                s
            },
            KeyCode::Left => s.left(),
            KeyCode::Down => if s.vertical_offset < self.max_vertical {
                s.down()
            } else {
                s
            },
            KeyCode::Up => s.up(),
            _ => s,
        }
    }

    /// Left and right move between row groups; up and down move over the group
    /// as a whole and its columns.
    pub fn on_event(&self, key_event: KeyEvent, state: &mut AppState)
        ensures
            final(state)@ == self.on_event_spec(key_event, old(state)@),
    {
        match key_event.code {
            KeyCode::Right => {
                let h = state.horizontal_offset();
                if h < self.max_horizontal && h + 1 < self.max_horizontal {
                    state.right();
                }
            },
            KeyCode::Left => {
                state.left();
            },
            KeyCode::Down => {
                if state.vertical_offset() < self.max_vertical {
                    state.down();
                }
            },
            KeyCode::Up => {
                state.up();
            },
            _ => {},
        }
    }

    /// The hints of the view.
    pub open spec fn instructions_spec() -> Seq<InstructionView> {
        seq![
            InstructionView { shortcut: "Left/Right"@, label: "Row group"@, highlighted: true },
            InstructionView { shortcut: "Up/Down"@, label: "Column"@, highlighted: true },
        ]
    }

    /// The hints of the view.
    pub fn instructions(&self) -> (r: Vec<Instruction>)
        ensures
            r.deep_view() == Self::instructions_spec(),
    {
        let mut r: Vec<Instruction> = Vec::new();
        r.push(instruction("Left/Right", "Row group", true));
        r.push(instruction("Up/Down", "Column", true));
        assert(r.deep_view() =~= Self::instructions_spec());
        r
    }

    /// The name of the view.
    pub fn to_string(&self) -> (r: String)
        ensures
            r@ == "Row Groups"@,
    {
        "Row Groups".to_owned()
    }
}

impl VisualizeTab {
    /// The number of rows on show: those that passed the filter when one is
    /// active, else all sample rows.
    pub open spec fn shown_rows(self, s: AppStateView) -> nat {
        match s.filtered_sample_data {
            Some(data) => data.rows.len(),
            None => self.max_vertical as nat,
        }
    }

    /// The state after the view has handled a key.
    pub open spec fn on_event_spec(self, key: KeyEvent, s: AppStateView) -> AppStateView {
        let rows = self.shown_rows(s);
        match key.code {
            KeyCode::Down => if s.vertical_offset + 1 < rows {
                s.down().adjust_scroll_to_selection(s.visible_data_rows, rows)
            } else {
                s
            },
            KeyCode::Up => s.up().adjust_scroll_to_selection(s.visible_data_rows, rows),
            KeyCode::PageDown => s.page_down(s.visible_data_rows, rows),
            KeyCode::PageUp => s.page_up(s.visible_data_rows, rows),
            KeyCode::Right => if s.horizontal_offset + 1 < self.max_horizontal {
                s.right()
            } else {
                s
            },
            KeyCode::Left => s.left(),
            KeyCode::Char(c) => if c == 'v' || c == 'V' {
                s.open_row_detail(s.vertical_offset)
            } else {
                s
            },
            _ => s,
        }
    }

    /// Arrows and page keys move the selected row and the first column on
    /// show, the table scrolling along; `v` opens the selected row in the
    /// row-detail pane.
    pub fn on_event(&self, key_event: KeyEvent, state: &mut AppState)
        ensures
            final(state)@ == self.on_event_spec(key_event, old(state)@),
    {
        let rows: usize = match state.filtered_sample_data() {
            Some(data) => data.total_rows(),
            None => self.max_vertical,
        };
        let visible = state.visible_data_rows();
        match key_event.code {
            KeyCode::Down => {
                let v = state.vertical_offset();
                if v < rows && v + 1 < rows {
                    state.down();
                    state.adjust_scroll_to_selection(visible, rows);
                }
            },
            KeyCode::Up => {
                state.up();
                state.adjust_scroll_to_selection(visible, rows);
            },
            KeyCode::PageDown => {
                state.page_down(visible, rows);
            },
            KeyCode::PageUp => {
                state.page_up(visible, rows);
            },
            KeyCode::Right => {
                let h = state.horizontal_offset();
                if h < self.max_horizontal && h + 1 < self.max_horizontal {
                    state.right();
                }
            },
            KeyCode::Left => {
                state.left();
            },
            KeyCode::Char(c) => {
                if c == 'v' || c == 'V' {
                    let row = state.vertical_offset();
                    state.open_row_detail(row);
                }
            },
            _ => {},
        }
    }

    /// The hints of the view.
    pub open spec fn instructions_spec() -> Seq<InstructionView> {
        seq![
            InstructionView { shortcut: "Arrows"@, label: "Move"@, highlighted: true },
            InstructionView { shortcut: "PgUp/PgDn"@, label: "Page"@, highlighted: true },
            InstructionView { shortcut: "/"@, label: "Search"@, highlighted: true },
            InstructionView { shortcut: "v"@, label: "Row detail"@, highlighted: true },
        ]
    }

    /// The hints of the view.
    pub fn instructions(&self) -> (r: Vec<Instruction>)
        ensures
            r.deep_view() == Self::instructions_spec(),
    {
        let mut r: Vec<Instruction> = Vec::new();
        r.push(instruction("Arrows", "Move", true));
        r.push(instruction("PgUp/PgDn", "Page", true));
        r.push(instruction("/", "Search", true));
        r.push(instruction("v", "Row detail", true));
        assert(r.deep_view() =~= Self::instructions_spec());
        r
    }

    /// The name of the view.
    pub fn to_string(&self) -> (r: String)
        ensures
            r@ == "Visualize"@,
    {
        "Visualize".to_owned()
    }
}

impl Default for SqlTab {
    /// The query view.
    fn default() -> (tab: Self)
        ensures
            tab == SqlTab,
    {
        Self::new()
    }
}

impl SqlTab {
    /// The query view.
    pub fn new() -> (tab: Self)
        ensures
            tab == SqlTab,
    {
        Self
    }

    /// The state after the view has handled a key.
    pub open spec fn on_event_spec(self, key: KeyEvent, s: AppStateView) -> AppStateView {
        match key.code {
            KeyCode::Backspace => s.pop_sql_char(),
            KeyCode::Char(c) => if c == 'v' || c == 'V' {
                if s.sql_result matches Some(SqlResultView::Success(_)) {
                    s.open_row_detail(s.vertical_offset)
                } else {
                    s
                }
            } else {
                s.push_sql_char(c)
            },
            _ => s,
        }
    }

    /// Character keys edit the query line; `v` opens the selected row of a
    /// successful outcome in the row-detail pane, and does nothing without one.
    pub fn on_event(&self, key_event: KeyEvent, state: &mut AppState)
        ensures
            final(state)@ == self.on_event_spec(key_event, old(state)@),
    {
        match key_event.code {
            KeyCode::Backspace => {
                state.pop_sql_char();
            },
            KeyCode::Char(c) => {
                if c == 'v' || c == 'V' {
                    let has_rows = match state.sql_result() {
                        Some(SqlResult::Success(_)) => true,
                        _ => false,
                    };
                    if has_rows {
                        let row = state.vertical_offset();
                        state.open_row_detail(row);
                    }
                } else {
                    state.push_sql_char(c);
                }
            },
            _ => {},
        }
    }

    /// The hints of the view.
    pub open spec fn instructions_spec() -> Seq<InstructionView> {
        seq![
            InstructionView { shortcut: "Enter"@, label: "Run query"@, highlighted: true },
            InstructionView { shortcut: "[Esc]"@, label: "Clear"@, highlighted: false },
            InstructionView { shortcut: "v"@, label: "Row detail"@, highlighted: true },
        ]
    }

    /// The hints of the view.
    pub fn instructions(&self) -> (r: Vec<Instruction>)
        ensures
            r.deep_view() == Self::instructions_spec(),
    {
        let mut r: Vec<Instruction> = Vec::new();
        r.push(instruction("Enter", "Run query", true));
        r.push(instruction("[Esc]", "Clear", false));
        r.push(instruction("v", "Row detail", true));
        assert(r.deep_view() =~= Self::instructions_spec());
        r
    }

    /// The name of the view.
    pub fn to_string(&self) -> (r: String)
        ensures
            r@ == "SQL"@,
    {
        "SQL".to_owned()
    }
}

/// One of the five views.
#[derive(Clone, Copy, Debug, PartialEq, Eq, Structural)]
pub enum Tab {
    Metadata(MetadataTab),
    Schema(SchemaTab),
    RowGroups(RowGroupsTab),
    Visualize(VisualizeTab),
    Sql(SqlTab),
}

impl Tab {
    /// The state after the view has handled a key.
    pub open spec fn on_event_spec(self, key: KeyEvent, s: AppStateView) -> AppStateView {
        match self {
            Tab::Metadata(tab) => tab.on_event_spec(key, s),
            Tab::Schema(tab) => tab.on_event_spec(key, s),
            Tab::RowGroups(tab) => tab.on_event_spec(key, s),
            Tab::Visualize(tab) => tab.on_event_spec(key, s),
            Tab::Sql(tab) => tab.on_event_spec(key, s),
        }
    }

    /// Hands a key to the view.
    pub fn on_event(&self, key_event: KeyEvent, state: &mut AppState)
        ensures
            final(state)@ == self.on_event_spec(key_event, old(state)@),
    {
        match self {
            Tab::Metadata(tab) => tab.on_event(key_event, state),
            Tab::Schema(tab) => tab.on_event(key_event, state),
            Tab::RowGroups(tab) => tab.on_event(key_event, state),
            Tab::Visualize(tab) => tab.on_event(key_event, state),
            Tab::Sql(tab) => tab.on_event(key_event, state),
        }
    }

    /// The hints of the view.
    pub open spec fn instructions_spec(self) -> Seq<InstructionView> {
        match self {
            Tab::Metadata(_) => MetadataTab::instructions_spec(),
            Tab::Schema(_) => SchemaTab::instructions_spec(),
            Tab::RowGroups(_) => RowGroupsTab::instructions_spec(),
            Tab::Visualize(_) => VisualizeTab::instructions_spec(),
            Tab::Sql(_) => SqlTab::instructions_spec(),
        }
    }

    /// The hints of the view.
    pub fn instructions(&self) -> (r: Vec<Instruction>)
        ensures
            r.deep_view() == self.instructions_spec(),
    {
        match self {
            Tab::Metadata(tab) => tab.instructions(),
            Tab::Schema(tab) => tab.instructions(),
            Tab::RowGroups(tab) => tab.instructions(),
            Tab::Visualize(tab) => tab.instructions(),
            Tab::Sql(tab) => tab.instructions(),
        }
    }

    /// The name of the view.
    pub open spec fn label(self) -> Seq<char> {
        match self {
            Tab::Metadata(_) => "Metadata"@,
            Tab::Schema(_) => "Schema"@,
            Tab::RowGroups(_) => "Row Groups"@,
            Tab::Visualize(_) => "Visualize"@,
            Tab::Sql(_) => "SQL"@,
        }
    }

    /// The name of the view.
    pub fn to_string(&self) -> (r: String)
        ensures
            r@ == self.label(),
    {
        match self {
            Tab::Metadata(tab) => tab.to_string(),
            Tab::Schema(tab) => tab.to_string(),
            Tab::RowGroups(tab) => tab.to_string(),
            Tab::Visualize(tab) => tab.to_string(),
            Tab::Sql(tab) => tab.to_string(),
        }
    }

    /// Whether this is the query view.
    pub fn is_sql(&self) -> (r: bool)
        ensures
            r == (self is Sql),
    {
        match self {
            Tab::Sql(_) => true,
            _ => false,
        }
    }
}

/// The number of views.
pub const TAB_COUNT: usize = 5;

/// The views in their fixed order, and which of them is on show.
pub struct TabManager {
    /// The position of the active view: below `TAB_COUNT`.
    active: usize,
    /// The number of leaf columns of the file.
    column_size: usize,
    /// The number of row groups of the file.
    num_row_groups: usize,
    /// The number of sample rows.
    sample_data_rows: usize,
}

/// The view at `position` of the fixed order, for a file with the given
/// numbers of columns, row groups and sample rows.
pub open spec fn tab_at(
    position: nat,
    column_size: usize,
    num_row_groups: usize,
    sample_data_rows: usize,
) -> Tab {
    if position == 0 {
        Tab::Metadata(MetadataTab)
    } else if position == 1 {
        Tab::Schema(SchemaTab { max_vertical: column_size })
    } else if position == 2 {
        Tab::RowGroups(RowGroupsTab { max_horizontal: num_row_groups, max_vertical: column_size })
    } else if position == 3 {
        Tab::Visualize(VisualizeTab { max_horizontal: column_size, max_vertical: sample_data_rows })
    } else {
        Tab::Sql(SqlTab)
    }
}

/// The mathematical content of the view list.
pub struct TabManagerView {
    pub active: nat,
    pub column_size: usize,
    pub num_row_groups: usize,
    pub sample_data_rows: usize,
}

impl TabManagerView {
    /// The view on show.
    pub open spec fn active_tab(self) -> Tab {
        tab_at(self.active, self.column_size, self.num_row_groups, self.sample_data_rows)
    }

    /// The names of the views, in their fixed order.
    pub open spec fn labels(self) -> Seq<Seq<char>> {
        Seq::new(
            TAB_COUNT as nat,
            |i: int|
                tab_at(
                    i as nat,
                    self.column_size,
                    self.num_row_groups,
                    self.sample_data_rows,
                ).label(),
        )
    }

    /// The next view on show, the first following the last.
    pub open spec fn next(self) -> TabManagerView {
        TabManagerView { active: (self.active + 1) % (TAB_COUNT as nat), ..self }
    }

    /// The previous view on show, the last preceding the first.
    pub open spec fn prev(self) -> TabManagerView {
        TabManagerView {
            active: ((self.active + TAB_COUNT - 1) % (TAB_COUNT as int)) as nat,
            ..self
        }
    }
}

impl View for TabManager {
    type V = TabManagerView;

    closed spec fn view(&self) -> TabManagerView {
        TabManagerView {
            active: self.active as nat,
            column_size: self.column_size,
            num_row_groups: self.num_row_groups,
            sample_data_rows: self.sample_data_rows,
        }
    }
}

impl TabManager {
    #[verifier::type_invariant]
    spec fn well_formed(&self) -> bool {
        self.active < TAB_COUNT
    }

    /// The views of a file, the first of them on show.
    pub fn new(column_size: usize, num_row_groups: usize, sample_data_rows: usize) -> (r: Self)
        ensures
            r@ == (TabManagerView { active: 0, column_size, num_row_groups, sample_data_rows }),
    {
        TabManager { active: 0, column_size, num_row_groups, sample_data_rows }
    }

    /// The position of the view on show.
    pub fn active_index(&self) -> (r: usize)
        ensures
            r == self@.active,
            r < TAB_COUNT,
    {
        proof {
            use_type_invariant(self);
        }
        self.active
    }

    /// The view at `position` of the fixed order.
    fn tab_at_position(&self, position: usize) -> (r: Tab)
        ensures
            r == tab_at(
                position as nat,
                self@.column_size,
                self@.num_row_groups,
                self@.sample_data_rows,
            ),
    {
        if position == 0 {
            Tab::Metadata(MetadataTab)
        } else if position == 1 {
            Tab::Schema(SchemaTab { max_vertical: self.column_size })
        } else if position == 2 {
            Tab::RowGroups(
                RowGroupsTab {
                    max_horizontal: self.num_row_groups,
                    max_vertical: self.column_size,
                },
            )
        } else if position == 3 {
            Tab::Visualize(
                VisualizeTab {
                    max_horizontal: self.column_size,
                    max_vertical: self.sample_data_rows,
                },
            )
        } else {
            Tab::Sql(SqlTab::new())
        }
    }

    /// The view on show.
    pub fn active_tab(&self) -> (r: Tab)
        ensures
            r == self@.active_tab(),
    {
        self.tab_at_position(self.active)
    }

    /// The names of the views, in their fixed order.
    pub fn labels(&self) -> (r: Vec<String>)
        ensures
            r.deep_view() == self@.labels(),
    {
        let mut r: Vec<String> = Vec::new();
        let mut position: usize = 0;
        while position < TAB_COUNT
            invariant
                position <= TAB_COUNT,
                r.len() == position,
                forall|i: int|
                    0 <= i < position ==> (#[trigger] r[i])@ == tab_at(
                        i as nat,
                        self@.column_size,
                        self@.num_row_groups,
                        self@.sample_data_rows,
                    ).label(),
            decreases TAB_COUNT - position,
        {
            r.push(self.tab_at_position(position).to_string());
            position += 1;
        }
        assert(r.deep_view() =~= self@.labels());
        r
    }

    /// Shows the next view; after the last comes the first.
    pub fn next(&mut self)
        ensures
            final(self)@ == old(self)@.next(),
    {
        proof {
            use_type_invariant(&*self);
        }
        self.active = if self.active + 1 < TAB_COUNT {
            self.active + 1
        } else {
            0
        };
    }

    /// Shows the previous view; before the first comes the last.
    pub fn prev(&mut self)
        ensures
            final(self)@ == old(self)@.prev(),
    {
        proof {
            use_type_invariant(&*self);
        }
        self.active = if self.active == 0 {
            TAB_COUNT - 1
        } else {
            self.active - 1
        };
    }
}

/// The column tree view keeps the selection on the header or on a leaf
/// column.
pub proof fn lemma_schema_selection_bounded(tab: SchemaTab, key: KeyEvent, s: AppStateView)
    requires
        s.vertical_offset <= tab.max_vertical,
    ensures
        tab.on_event_spec(key, s).vertical_offset <= tab.max_vertical,
{
}

/// The row-group view keeps the selection on a row group of the file, and on
/// the group as a whole or on one of its columns.
pub proof fn lemma_row_groups_selection_bounded(tab: RowGroupsTab, key: KeyEvent, s: AppStateView)
    requires
        s.horizontal_offset < tab.max_horizontal,
        s.vertical_offset <= tab.max_vertical,
    ensures
        tab.on_event_spec(key, s).horizontal_offset < tab.max_horizontal,
        tab.on_event_spec(key, s).vertical_offset <= tab.max_vertical,
{
}

/// The sample table keeps the selection on a row, and after every key that
/// moves the selection the selected row is in the window.
pub proof fn lemma_visualize_selection_visible(tab: VisualizeTab, key: KeyEvent, s: AppStateView)
    requires
        s.vertical_offset < tab.shown_rows(s),
        s.visible_data_rows > 0,
    ensures
        ({
            let t = tab.on_event_spec(key, s);
            &&& t.vertical_offset < tab.shown_rows(s)
            &&& (key.code == KeyCode::Up || key.code == KeyCode::Down || key.code
                == KeyCode::PageUp || key.code == KeyCode::PageDown) && t.vertical_offset
                != s.vertical_offset ==> t.data_vertical_scroll <= t.vertical_offset
                < t.data_vertical_scroll + t.visible_data_rows
        }),
{
}

/// Going to the next view and back shows the view that was on show.
pub proof fn lemma_next_then_prev(tabs: TabManagerView)
    requires
        tabs.active < TAB_COUNT,
    ensures
        tabs.next().prev() == tabs,
        tabs.prev().next() == tabs,
{
}

} // verus!
