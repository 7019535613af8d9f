//! The session: routing every key to the overlay that holds the keyboard or
//! to the view on show, and telling the caller what to run.

use crate::keys::{Event, KeyCode, KeyEvent, KeyEventKind};
use crate::parquet_ctx::{primitive_count, ParquetCtx};
use crate::sample_data::{ParquetSampleData, SampleDataView};
use crate::sql::{empty_query_message, validate_query, SqlResult, SqlResultView};
use crate::state::{saturating_diff, AppState, AppStateView, DETAIL_PAGE_SIZE};
use crate::tabs::{Tab, TabManager, TabManagerView};
use crate::text::blank;
use crate::viewport::max_scroll;
use vstd::prelude::*;

verus! {

/// Number of screen lines taken by the header, the footer and the head of
/// the data table.
pub const CHROME_LINES: u16 = 7;

/// What the caller has to do after a key was handled.
pub enum Action {
    /// Nothing.
    Idle,
    /// Run `query` against the file at `path`, and hand the outcome to
    /// `App::record_query_outcome`.
    RunQuery { path: String, query: String },
}

/// The mathematical content of an action.
#[verifier::ext_equal]
pub enum ActionView {
    Idle,
    RunQuery { path: Seq<char>, query: Seq<char> },
}

impl View for Action {
    type V = ActionView;

    open spec fn view(&self) -> ActionView {
        match self {
            Action::Idle => ActionView::Idle,
            Action::RunQuery { path, query } => ActionView::RunQuery { path: path@, query: query@ },
        }
    }
}

/// One session of the explorer over one file.
pub struct App<'a> {
    pub parquet_ctx: &'a ParquetCtx,
    pub file_name: String,
    pub exit: bool,
    pub tabs: TabManager,
    pub state: AppState,
}

/// The mathematical content of a session.
#[verifier::ext_equal]
pub struct AppView {
    /// The path of the file, as queries are run against it.
    pub file_path: Seq<char>,
    /// The sample rows of the file.
    pub sample_data: SampleDataView,
    pub file_name: Seq<char>,
    pub exit: bool,
    pub tabs: TabManagerView,
    pub state: AppStateView,
}

impl<'a> View for App<'a> {
    type V = AppView;

    open spec fn view(&self) -> AppView {
        AppView {
            file_path: self.parquet_ctx.file_path@,
            sample_data: self.parquet_ctx.sample_data@,
            file_name: self.file_name@,
            exit: self.exit,
            tabs: self.tabs@,
            state: self.state@,
        }
    }
}

/// The state after the row-detail pane has handled a key.
pub open spec fn row_detail_step(s: AppStateView, key: KeyEvent) -> AppStateView {
    match key.code {
        KeyCode::Esc => s.close_row_detail(),
        KeyCode::Up => s.detail_scroll_up(1),
        KeyCode::Down => s.detail_scroll_down(1),
        KeyCode::PageUp => s.detail_scroll_up(DETAIL_PAGE_SIZE as nat),
        KeyCode::PageDown => s.detail_scroll_down(DETAIL_PAGE_SIZE as nat),
        KeyCode::Left => s.detail_scroll_left(),
        KeyCode::Right => s.detail_scroll_right(),
        _ => s,
    }
}

/// The state after search entry has handled a key.
pub open spec fn search_step(
    s: AppStateView,
    sample: SampleDataView,
    key: KeyEvent,
) -> AppStateView {
    match key.code {
        KeyCode::Esc => s.cancel_search(),
        KeyCode::Enter => s.commit_search(sample),
        KeyCode::Backspace => s.pop_search_char(),
        KeyCode::Char(c) => s.push_search_char(c),
        _ => s,
    }
}

/// The state after the cancel key was pressed with no overlay open: an active
/// filter is cleared; else, in the query view, the query and its outcome;
/// else the offsets start over.
pub open spec fn cancel_step(s: AppStateView, in_query_view: bool) -> AppStateView {
    if s.search_filter is Some {
        s.clear_search_filter().reset()
    } else if in_query_view {
        s.clear_sql()
    } else {
        s.reset()
    }
}

impl AppView {
    /// Whether the key asks for a query to be run: the commit key in the
    /// query view, with no overlay open.
    pub open spec fn commits_query(self, key: KeyEvent) -> bool {
        &&& !key.is_quit()
        &&& self.state.row_detail_row is None
        &&& !self.state.search_mode
        &&& key.code == KeyCode::Enter
        &&& self.tabs.active_tab() is Sql
    }

    /// The session after a key with no overlay open.
    pub open spec fn normal_step(self, key: KeyEvent) -> AppView {
        let tab = self.tabs.active_tab();
        match key.code {
            KeyCode::Esc => AppView { state: cancel_step(self.state, tab is Sql), ..self },
            KeyCode::Tab => AppView { tabs: self.tabs.next(), state: self.state.reset(), ..self },
            KeyCode::BackTab => AppView {
                tabs: self.tabs.prev(),
                state: self.state.reset(),
                ..self
            },
            _ => if key.code == KeyCode::Char('/') {
                AppView { state: self.state.start_search(), ..self }
            } else if key.code == KeyCode::Enter && tab is Sql {
                if blank(self.state.sql_query) {
                    AppView {
                        state: self.state.with_sql_result(
                            SqlResultView::Failure(empty_query_message()),
                        ),
                        ..self
                    }
                } else {
                    self
                }
            } else {
                AppView { state: tab.on_event_spec(key, self.state), ..self }
            },
        }
    }

    /// The session after a key: the terminate combination first, then the
    /// row-detail pane, then search entry, then the view on show.
    pub open spec fn handle_key_event(self, key: KeyEvent) -> AppView {
        if key.is_quit() {
            AppView { exit: true, ..self }
        } else if self.state.row_detail_row is Some {
            AppView { state: row_detail_step(self.state, key), ..self }
        } else if self.state.search_mode {
            AppView { state: search_step(self.state, self.sample_data, key), ..self }
        } else {
            self.normal_step(key)
        }
    }

    /// What the caller has to do after a key: run the query when one is
    /// committed that is not blank, else nothing.
    pub open spec fn action(self, key: KeyEvent) -> ActionView {
        if self.commits_query(key) && !blank(self.state.sql_query) {
            ActionView::RunQuery { path: self.file_path, query: self.state.sql_query }
        } else {
            ActionView::Idle
        }
    }

    /// The session after an event: a key press is handled, anything else
    /// changes nothing.
    pub open spec fn handle_event(self, event: Event) -> AppView {
        match event {
            Event::Key(key) => if key.kind == KeyEventKind::Press {
                self.handle_key_event(key)
            } else {
                self
            },
            Event::Other => self,
        }
    }

    /// The number of rows of the table on show, if the view on show has one:
    /// the sample rows or those that passed the filter, or the rows of a
    /// successful query.
    pub open spec fn shown_rows(self) -> Option<nat> {
        let tab = self.tabs.active_tab();
        if tab is Visualize {
            match self.state.filtered_sample_data {
                Some(data) => Some(data.rows.len()),
                None => Some(self.sample_data.rows.len()),
            }
        } else if tab is Sql {
            match self.state.sql_result {
                Some(SqlResultView::Success(data)) => Some(data.rows.len()),
                _ => None,
            }
        } else {
            None
        }
    }

    /// The session as a frame of `height` lines is about to be drawn.
    pub open spec fn prepare_frame(self, height: u16) -> AppView {
        let visible = visible_rows_for_height(height);
        let sized = self.state.with_visible_data_rows(visible);
        match self.shown_rows() {
            Some(rows) => AppView {
                state: sized.clamp_selection(rows).adjust_scroll_to_selection(visible, rows),
                ..self
            },
            None => AppView { state: sized, ..self },
        }
    }
}

/// No event separates a filter from its rows, or opens search entry and the
/// row-detail pane together.
pub proof fn lemma_event_keeps_state_consistent(app: AppView, event: Event)
    requires
        app.state.filter_paired(),
        app.state.one_overlay(),
    ensures
        app.handle_event(event).state.filter_paired(),
        app.handle_event(event).state.one_overlay(),
{
}

/// Preparing a frame changes neither the filter nor the overlay.
pub proof fn lemma_frame_keeps_state_consistent(app: AppView, height: u16)
    requires
        app.state.filter_paired(),
        app.state.one_overlay(),
    ensures
        app.prepare_frame(height).state.filter_paired(),
        app.prepare_frame(height).state.one_overlay(),
{
}

/// The number of data rows that fit a screen of `height` lines: what the
/// header, the footer and the table head leave, and at least one.
pub open spec fn visible_rows_for_height(height: u16) -> nat {
    let room = saturating_diff(height as nat, CHROME_LINES as nat);
    if room > 1 {
        room
    } else {
        1
    }
}

impl<'a> App<'a> {
    /// A session over `file_info`: the first view on show, nothing selected.
    pub fn new(file_info: &'a ParquetCtx) -> (app: Self)
        ensures
            app.parquet_ctx == file_info,
            app@.file_name == file_info.file_path@,
            !app@.exit,
            app@.state == AppStateView::initial(),
            app@.tabs == (TabManagerView {
                active: 0,
                column_size: primitive_count(file_info.schema@) as usize,
                num_row_groups: file_info.num_row_groups,
                sample_data_rows: file_info.sample_data@.rows.len() as usize,
            }),
    {
        let sample_data_rows = file_info.sample_data.total_rows();
        let tab_manager = TabManager::new(
            file_info.column_size(),
            file_info.num_row_groups,
            sample_data_rows,
        );
        Self {
            parquet_ctx: file_info,
            file_name: file_info.file_path.clone(),
            exit: false,
            tabs: tab_manager,
            state: AppState::new(),
        }
    }

    /// The rows on show in the sample table: those that passed the filter
    /// when one is active, else all sample rows.
    fn visible_sample_data(&self) -> (data: &ParquetSampleData)
        ensures
            data@ == match self@.state.filtered_sample_data {
                Some(filtered) => filtered,
                None => self@.sample_data,
            },
    {
        match self.state.filtered_sample_data() {
            Some(filtered) => filtered,
            None => &self.parquet_ctx.sample_data,
        }
    }

    /// Sizes the data window for a screen of `height` lines, brings the
    /// selected row back inside the table on show, and scrolls the table to
    /// it.
    pub fn prepare_frame(&mut self, height: u16)
        ensures
            final(self)@ == old(self)@.prepare_frame(height),
            final(self).parquet_ctx == old(self).parquet_ctx,
            match final(self)@.shown_rows() {
                Some(rows) => {
                    let s = final(self)@.state;
                    &&& s.data_vertical_scroll <= max_scroll(s.visible_data_rows, rows)
                    &&& rows > 0 ==> s.vertical_offset < rows && s.data_vertical_scroll
                        <= s.vertical_offset < s.data_vertical_scroll + s.visible_data_rows
                },
                None => true,
            },
    {
        let visible: usize = if height > CHROME_LINES + 1 {
            (height - CHROME_LINES) as usize
        } else {
            1
        };
        self.state.set_visible_data_rows(visible);
        let tab = self.tabs.active_tab();
        let shown: Option<usize> = match tab {
            Tab::Visualize(_) => Some(self.visible_sample_data().total_rows()),
            Tab::Sql(_) => match self.state.sql_result() {
                Some(SqlResult::Success(data)) => Some(data.total_rows()),
                _ => None,
            },
            _ => None,
        };
        match shown {
            Some(rows) => {
                self.state.clamp_selection(rows);
                self.state.adjust_scroll_to_selection(visible, rows);
            },
            None => {},
        }
    }

    /// Handles one terminal event: a key press goes to `handle_key_event`,
    /// anything else is dropped.
    pub fn handle_event(&mut self, event: Event) -> (action: Action)
        ensures
            final(self)@ == old(self)@.handle_event(event),
            final(self).parquet_ctx == old(self).parquet_ctx,
            action@ == match event {
                Event::Key(key) if key.kind == KeyEventKind::Press => old(self)@.action(key),
                _ => ActionView::Idle,
            },
    {
        match event {
            Event::Key(key_event) => {
                match key_event.kind {
                    KeyEventKind::Press => self.handle_key_event(key_event),
                    _ => Action::Idle,
                }
            },
            Event::Other => Action::Idle,
        }
    }

    /// Handles one key press and says what the caller has to run.
    pub fn handle_key_event(&mut self, key_event: KeyEvent) -> (action: Action)
        ensures
            final(self)@ == old(self)@.handle_key_event(key_event),
            final(self).parquet_ctx == old(self).parquet_ctx,
            action@ == old(self)@.action(key_event),
            final(self)@.state.filter_paired(),
            final(self)@.state.one_overlay(),
    {
        proof {
            self.state.lemma_filter_paired();
            self.state.lemma_one_overlay();
        }
        if key_event.is_quit() {
            self.exit();
            return Action::Idle;
        }
        if self.state.row_detail_row().is_some() {
            match key_event.code {
                KeyCode::Esc => {
                    self.state.close_row_detail();
                },
                KeyCode::Up => {
                    self.state.detail_scroll_up(1);
                },
                KeyCode::Down => {
                    self.state.detail_scroll_down(1);
                },
                KeyCode::PageUp => {
                    self.state.detail_scroll_up(DETAIL_PAGE_SIZE);
                },
                KeyCode::PageDown => {
                    self.state.detail_scroll_down(DETAIL_PAGE_SIZE);
                },
                KeyCode::Left => {
                    self.state.detail_scroll_left();
                },
                KeyCode::Right => {
                    self.state.detail_scroll_right();
                },
                _ => {},
            }
            return Action::Idle;
        }
        if self.state.search_mode() {
            match key_event.code {
                KeyCode::Esc => {
                    self.state.cancel_search();
                },
                KeyCode::Enter => {
                    self.state.commit_search(&self.parquet_ctx.sample_data);
                },
                KeyCode::Backspace => {
                    self.state.pop_search_char();
                },
                KeyCode::Char(c) => {
                    self.state.push_search_char(c);
                },
                _ => {},
            }
            return Action::Idle;
        }
        let tab = self.tabs.active_tab();
        match key_event.code {
            KeyCode::Esc => {
                if self.state.search_filter().is_some() {
                    self.state.clear_search_filter();
                    self.state.reset();
                } else if tab.is_sql() {
                    self.state.clear_sql();
                } else {
                    self.state.reset();
                }
                Action::Idle
            },
            KeyCode::Tab => {
                self.tabs.next();
                self.state.reset();
                Action::Idle
            },
            KeyCode::BackTab => {
                self.tabs.prev();
                self.state.reset();
                Action::Idle
            },
            KeyCode::Char(c) => {
                if c == '/' {
                    self.state.start_search();
                } else {
                    tab.on_event(key_event, &mut self.state);
                }
                Action::Idle
            },
            KeyCode::Enter => {
                if tab.is_sql() {
                    self.commit_query()
                } else {
                    tab.on_event(key_event, &mut self.state);
                    Action::Idle
                }
            },
            _ => {
                tab.on_event(key_event, &mut self.state);
                Action::Idle
            },
        }
    }

    /// Records the outcome of the query that `Action::RunQuery` asked for.
    pub fn record_query_outcome(&mut self, outcome: SqlResult)
        ensures
            final(self)@ == (AppView {
                state: old(self)@.state.with_sql_result(outcome@),
                ..old(self)@
            }),
            final(self).parquet_ctx == old(self).parquet_ctx,
    {
        self.state.set_sql_result(outcome);
    }

    /// A blank query is turned away on the spot and never run; any other is
    /// handed to the caller to run.
    fn commit_query(&mut self) -> (action: Action)
        ensures
            final(self).parquet_ctx == old(self).parquet_ctx,
            blank(old(self)@.state.sql_query) ==> action@ == ActionView::Idle && final(self)@ == (
            AppView {
                state: old(self)@.state.with_sql_result(
                    SqlResultView::Failure(empty_query_message()),
                ),
                ..old(self)@
            }),
            !blank(old(self)@.state.sql_query) ==> final(self)@ == old(self)@ && action@ == (
            ActionView::RunQuery {
                path: old(self)@.file_path,
                query: old(self)@.state.sql_query,
            }),
    {
        match validate_query(self.state.sql_query().as_str()) {
            Err(message) => {
                self.state.set_sql_result(SqlResult::Failure(message));
                Action::Idle
            },
            Ok(()) => Action::RunQuery {
                path: self.parquet_ctx.file_path.clone(),
                query: self.state.sql_query().clone(),
            },
        }
    }

    /// Ends the session.
    fn exit(&mut self)
        ensures
            final(self)@ == (AppView { exit: true, ..old(self)@ }),
            final(self).parquet_ctx == old(self).parquet_ctx,
    {
        self.exit = true;
    }
}

/// What the renderer reads of a session.
pub struct AppRenderView<'a> {
    pub title: &'a str,
    pub parquet_ctx: &'a ParquetCtx,
    pub file_name: &'a str,
    pub tabs: &'a TabManager,
    pub state: &'a AppState,
}

impl<'a> AppRenderView<'a> {
    /// The read-only view of `app` for one frame.
    pub fn from_app(app: &'a App<'a>) -> (view: Self)
        ensures
            view.title@ == "parqeye"@,
            view.parquet_ctx == app.parquet_ctx,
            view.file_name@ == app@.file_name,
            view.tabs@ == app@.tabs,
            view.state@ == app@.state,
    {
        Self {
            title: "parqeye",
            parquet_ctx: app.parquet_ctx,
            file_name: app.file_name.as_str(),
            tabs: &app.tabs,
            state: &app.state,
        }
    }

    /// The views and which of them is on show.
    pub fn tabs(&self) -> (r: &TabManager)
        ensures
            r@ == self.tabs@,
    {
        self.tabs
    }

    /// The name of the file on show.
    pub fn file_name(&self) -> (r: &str)
        ensures
            r@ == self.file_name@,
    {
        self.file_name
    }

    /// The navigation state.
    pub fn state(&self) -> (r: &AppState)
        ensures
            r@ == self.state@,
    {
        self.state
    }
}

} // verus!
