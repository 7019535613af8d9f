use parqeye::coordinator::{Action, App, AppRenderView, CHROME_LINES};
use parqeye::keys::{Event, KeyCode, KeyEvent, KeyEventKind, KeyModifiers};
use parqeye::parquet_ctx::{ParquetCtx, SchemaInfo};
use parqeye::sample_data::ParquetSampleData;
use parqeye::sql::SqlResult;
use parqeye::tabs::{RowGroupsTab, SchemaTab, Tab, VisualizeTab};

fn press(code: KeyCode) -> KeyEvent {
    KeyEvent {
        code,
        modifiers: KeyModifiers { control: false, shift: false, alt: false },
        kind: KeyEventKind::Press,
    }
}

fn ctrl(c: char) -> KeyEvent {
    KeyEvent {
        code: KeyCode::Char(c),
        modifiers: KeyModifiers { control: true, shift: false, alt: false },
        kind: KeyEventKind::Press,
    }
}

fn log_ctx(rows: usize) -> ParquetCtx {
    let rows = (0..rows)
        .map(|i| {
            let message = if i == 17 || i == 500 || i == 999 { "Error: failed" } else { "ok" };
            vec![i.to_string(), message.to_string()]
        })
        .collect();
    ParquetCtx {
        file_path: "/data/log.parquet".to_string(),
        schema: vec![SchemaInfo::Group, SchemaInfo::Primitive, SchemaInfo::Primitive],
        tree_width: 12,
        num_row_groups: 4,
        sample_data: ParquetSampleData::new(vec!["id".to_string(), "message".to_string()], rows)
            .unwrap(),
    }
}

fn type_text(app: &mut App, text: &str) {
    for c in text.chars() {
        app.handle_key_event(press(KeyCode::Char(c)));
    }
}

fn go_to(app: &mut App, label: &str) {
    while app.tabs.active_tab().to_string() != label {
        app.handle_key_event(press(KeyCode::Tab));
    }
}

fn is_idle(action: &Action) -> bool {
    matches!(action, Action::Idle)
}

#[test]
fn new_session() {
    let ctx = log_ctx(100);
    let app = App::new(&ctx);
    assert_eq!(app.file_name, "/data/log.parquet");
    assert!(!app.exit);
    assert_eq!(app.tabs.active_index(), 0);
    assert_eq!(app.state.vertical_offset(), 0);
    assert!(!app.state.search_mode());
    assert_eq!(CHROME_LINES, 7);
}

#[test]
fn views_know_the_file() {
    let ctx = log_ctx(100);
    let mut app = App::new(&ctx);
    go_to(&mut app, "Schema");
    assert_eq!(app.tabs.active_tab(), Tab::Schema(SchemaTab { max_vertical: 2 }));
    go_to(&mut app, "Row Groups");
    assert_eq!(
        app.tabs.active_tab(),
        Tab::RowGroups(RowGroupsTab { max_horizontal: 4, max_vertical: 2 })
    );
    go_to(&mut app, "Visualize");
    assert_eq!(
        app.tabs.active_tab(),
        Tab::Visualize(VisualizeTab { max_horizontal: 2, max_vertical: 100 })
    );
}

#[test]
fn filter_error_over_thousand_rows() {
    let ctx = log_ctx(1000);
    let mut app = App::new(&ctx);
    go_to(&mut app, "Visualize");
    for _ in 0..30 {
        app.handle_key_event(press(KeyCode::Down));
    }
    assert_eq!(app.state.vertical_offset(), 30);
    app.handle_key_event(press(KeyCode::Char('/')));
    type_text(&mut app, "error");
    let action = app.handle_key_event(press(KeyCode::Enter));
    assert!(is_idle(&action));
    assert_eq!(app.state.search_filter().map(|q| q.as_str()), Some("error"));
    assert_eq!(app.state.filtered_sample_data().unwrap().total_rows(), 3);
    assert_eq!(app.state.vertical_offset(), 0);
    assert_eq!(app.state.data_vertical_scroll(), 0);
    assert_eq!(app.state.horizontal_offset(), 0);
    assert!(!app.state.search_mode());
    assert_eq!(ctx.sample_data.total_rows(), 1000);
}

#[test]
fn empty_query_is_rejected_without_running() {
    let ctx = log_ctx(10);
    let mut app = App::new(&ctx);
    go_to(&mut app, "SQL");
    let action = app.handle_key_event(press(KeyCode::Enter));
    assert!(is_idle(&action));
    assert!(matches!(app.state.sql_result(), Some(SqlResult::Failure(m)) if m == "Empty query"));
}

#[test]
fn blank_query_is_rejected_without_running() {
    let ctx = log_ctx(10);
    let mut app = App::new(&ctx);
    go_to(&mut app, "SQL");
    type_text(&mut app, "   ");
    let action = app.handle_key_event(press(KeyCode::Enter));
    assert!(is_idle(&action));
    assert!(matches!(app.state.sql_result(), Some(SqlResult::Failure(m)) if m == "Empty query"));
    assert_eq!(app.state.sql_query(), "   ");
}

#[test]
fn query_is_handed_out_to_run() {
    let ctx = log_ctx(10);
    let mut app = App::new(&ctx);
    go_to(&mut app, "SQL");
    type_text(&mut app, "select * from parquet");
    let action = app.handle_key_event(press(KeyCode::Enter));
    match action {
        Action::RunQuery { path, query } => {
            assert_eq!(path, "/data/log.parquet");
            assert_eq!(query, "select * from parquet");
        }
        Action::Idle => panic!("the query should be run"),
    }
    assert!(app.state.sql_result().is_none());
    app.record_query_outcome(SqlResult::Failure("file not found".to_string()));
    assert!(matches!(app.state.sql_result(), Some(SqlResult::Failure(m)) if m == "file not found"));
    assert_eq!(app.state.sql_query(), "select * from parquet");
}

#[test]
fn failed_query_keeps_prior_state() {
    let ctx = log_ctx(10);
    let mut app = App::new(&ctx);
    go_to(&mut app, "Visualize");
    app.handle_key_event(press(KeyCode::Char('/')));
    type_text(&mut app, "ok");
    app.handle_key_event(press(KeyCode::Enter));
    go_to(&mut app, "SQL");
    type_text(&mut app, "selec");
    app.handle_key_event(press(KeyCode::Enter));
    app.record_query_outcome(SqlResult::Failure("syntax".to_string()));
    assert_eq!(app.state.search_filter().map(|q| q.as_str()), Some("ok"));
    assert_eq!(app.state.sql_query(), "selec");
    assert!(!app.exit);
}

#[test]
fn enter_outside_the_query_view_runs_nothing() {
    let ctx = log_ctx(10);
    let mut app = App::new(&ctx);
    for _ in 0..4 {
        let action = app.handle_key_event(press(KeyCode::Enter));
        assert!(is_idle(&action));
        assert!(app.state.sql_result().is_none());
        app.handle_key_event(press(KeyCode::Tab));
    }
}

#[test]
fn quit_from_normal_mode() {
    let ctx = log_ctx(10);
    let mut app = App::new(&ctx);
    app.handle_key_event(press(KeyCode::Char('x')));
    assert!(!app.exit);
    app.handle_key_event(ctrl('x'));
    assert!(app.exit);
    let mut upper = App::new(&ctx);
    upper.handle_key_event(ctrl('X'));
    assert!(upper.exit);
    let mut other = App::new(&ctx);
    other.handle_key_event(ctrl('q'));
    assert!(!other.exit);
}

#[test]
fn quit_from_search_entry() {
    let ctx = log_ctx(10);
    let mut app = App::new(&ctx);
    app.handle_key_event(press(KeyCode::Char('/')));
    type_text(&mut app, "ab");
    app.handle_key_event(ctrl('x'));
    assert!(app.exit);
    assert_eq!(app.state.search_query(), "ab");
}

#[test]
fn quit_from_row_detail() {
    let ctx = log_ctx(10);
    let mut app = App::new(&ctx);
    go_to(&mut app, "Visualize");
    app.handle_key_event(press(KeyCode::Char('v')));
    assert_eq!(app.state.row_detail_row(), Some(0));
    app.handle_key_event(ctrl('x'));
    assert!(app.exit);
    assert_eq!(app.state.row_detail_row(), Some(0));
}

#[test]
fn search_entry_swallows_navigation() {
    let ctx = log_ctx(10);
    let mut app = App::new(&ctx);
    go_to(&mut app, "Visualize");
    app.handle_key_event(press(KeyCode::Char('/')));
    assert!(app.state.search_mode());
    for code in [KeyCode::Down, KeyCode::Up, KeyCode::Left, KeyCode::Right, KeyCode::PageDown,
        KeyCode::PageUp, KeyCode::Tab, KeyCode::BackTab, KeyCode::Other] {
        app.handle_key_event(press(code));
    }
    assert!(app.state.search_mode());
    assert_eq!(app.state.vertical_offset(), 0);
    assert_eq!(app.state.horizontal_offset(), 0);
    assert_eq!(app.tabs.active_tab().to_string(), "Visualize");
    type_text(&mut app, "a/v");
    assert_eq!(app.state.search_query(), "a/v");
    app.handle_key_event(press(KeyCode::Backspace));
    assert_eq!(app.state.search_query(), "a/");
    assert_eq!(app.state.row_detail_row(), None);
}

#[test]
fn search_cancel_discards_the_line() {
    let ctx = log_ctx(10);
    let mut app = App::new(&ctx);
    app.handle_key_event(press(KeyCode::Char('/')));
    type_text(&mut app, "ok");
    app.handle_key_event(press(KeyCode::Esc));
    assert!(!app.state.search_mode());
    assert_eq!(app.state.search_query(), "");
    assert!(app.state.search_filter().is_none());
    assert!(app.state.filtered_sample_data().is_none());
}

#[test]
fn start_search_clears_the_line() {
    let ctx = log_ctx(10);
    let mut app = App::new(&ctx);
    app.handle_key_event(press(KeyCode::Char('/')));
    type_text(&mut app, "ok");
    app.handle_key_event(press(KeyCode::Enter));
    assert_eq!(app.state.search_query(), "ok");
    app.handle_key_event(press(KeyCode::Char('/')));
    assert!(app.state.search_mode());
    assert_eq!(app.state.search_query(), "");
    assert_eq!(app.state.search_filter().map(|q| q.as_str()), Some("ok"));
}

#[test]
fn escape_clears_filter_first() {
    let ctx = log_ctx(10);
    let mut app = App::new(&ctx);
    go_to(&mut app, "SQL");
    type_text(&mut app, "select 1");
    app.record_query_outcome(SqlResult::Failure("x".to_string()));
    app.handle_key_event(press(KeyCode::Char('/')));
    type_text(&mut app, "ok");
    app.handle_key_event(press(KeyCode::Enter));
    assert!(app.state.search_filter().is_some());
    // First escape: the filter goes, the query stays.
    app.handle_key_event(press(KeyCode::Esc));
    assert!(app.state.search_filter().is_none());
    assert!(app.state.filtered_sample_data().is_none());
    assert_eq!(app.state.sql_query(), "select 1");
    assert!(app.state.sql_result().is_some());
    // Second escape, in the query view: the query and its outcome go.
    app.handle_key_event(press(KeyCode::Esc));
    assert_eq!(app.state.sql_query(), "");
    assert!(app.state.sql_result().is_none());
}

#[test]
fn escape_resets_offsets_elsewhere() {
    let ctx = log_ctx(100);
    let mut app = App::new(&ctx);
    go_to(&mut app, "Visualize");
    for _ in 0..30 {
        app.handle_key_event(press(KeyCode::Down));
    }
    app.handle_key_event(press(KeyCode::Right));
    assert_eq!(app.state.vertical_offset(), 30);
    assert_eq!(app.state.horizontal_offset(), 1);
    app.handle_key_event(press(KeyCode::Esc));
    assert_eq!(app.state.vertical_offset(), 0);
    assert_eq!(app.state.horizontal_offset(), 0);
    assert_eq!(app.state.data_vertical_scroll(), 0);
}

#[test]
fn escape_in_query_view_keeps_offsets() {
    let ctx = log_ctx(100);
    let mut app = App::new(&ctx);
    go_to(&mut app, "SQL");
    app.state.set_data_vertical_scroll(4);
    app.handle_key_event(press(KeyCode::Esc));
    assert_eq!(app.state.data_vertical_scroll(), 4);
}

#[test]
fn tab_switch_resets_offsets() {
    let ctx = log_ctx(100);
    let mut app = App::new(&ctx);
    go_to(&mut app, "Schema");
    app.handle_key_event(press(KeyCode::Down));
    app.handle_key_event(press(KeyCode::Down));
    assert_eq!(app.state.vertical_offset(), 2);
    app.handle_key_event(press(KeyCode::Tab));
    assert_eq!(app.tabs.active_tab().to_string(), "Row Groups");
    assert_eq!(app.state.vertical_offset(), 0);
    app.handle_key_event(press(KeyCode::Right));
    assert_eq!(app.state.horizontal_offset(), 1);
    app.handle_key_event(press(KeyCode::BackTab));
    assert_eq!(app.tabs.active_tab().to_string(), "Schema");
    assert_eq!(app.state.horizontal_offset(), 0);
}

#[test]
fn tab_cycles_over_five_views() {
    let ctx = log_ctx(1);
    let mut app = App::new(&ctx);
    let mut labels = Vec::new();
    for _ in 0..6 {
        labels.push(app.tabs.active_tab().to_string());
        app.handle_key_event(press(KeyCode::Tab));
    }
    assert_eq!(labels, vec!["Metadata", "Schema", "Row Groups", "Visualize", "SQL", "Metadata"]);
    app.handle_key_event(press(KeyCode::BackTab));
    app.handle_key_event(press(KeyCode::BackTab));
    assert_eq!(app.tabs.active_tab().to_string(), "SQL");
}

#[test]
fn row_detail_holds_the_keyboard() {
    let ctx = log_ctx(100);
    let mut app = App::new(&ctx);
    go_to(&mut app, "Visualize");
    app.handle_key_event(press(KeyCode::Down));
    app.handle_key_event(press(KeyCode::Char('v')));
    assert_eq!(app.state.row_detail_row(), Some(1));
    app.handle_key_event(press(KeyCode::Down));
    app.handle_key_event(press(KeyCode::Down));
    app.handle_key_event(press(KeyCode::PageDown));
    app.handle_key_event(press(KeyCode::Right));
    assert_eq!(app.state.detail_scroll_offset(), 12);
    assert_eq!(app.state.detail_scroll_horizontal(), 1);
    assert_eq!(app.state.vertical_offset(), 1);
    assert_eq!(app.state.horizontal_offset(), 0);
    app.handle_key_event(press(KeyCode::Up));
    app.handle_key_event(press(KeyCode::PageUp));
    app.handle_key_event(press(KeyCode::Left));
    app.handle_key_event(press(KeyCode::Left));
    assert_eq!(app.state.detail_scroll_offset(), 1);
    assert_eq!(app.state.detail_scroll_horizontal(), 0);
    // Nothing else is read while the pane is open.
    app.handle_key_event(press(KeyCode::Char('/')));
    app.handle_key_event(press(KeyCode::Tab));
    app.handle_key_event(press(KeyCode::Enter));
    app.handle_key_event(press(KeyCode::Char('v')));
    assert!(!app.state.search_mode());
    assert_eq!(app.tabs.active_tab().to_string(), "Visualize");
    assert_eq!(app.state.row_detail_row(), Some(1));
    assert_eq!(app.state.detail_scroll_offset(), 1);
    app.handle_key_event(press(KeyCode::Esc));
    assert_eq!(app.state.row_detail_row(), None);
    assert_eq!(app.state.vertical_offset(), 1);
}

#[test]
fn row_detail_only_from_row_views() {
    let ctx = log_ctx(100);
    let mut app = App::new(&ctx);
    for label in ["Metadata", "Schema", "Row Groups"] {
        go_to(&mut app, label);
        app.handle_key_event(press(KeyCode::Char('v')));
        assert_eq!(app.state.row_detail_row(), None);
    }
    go_to(&mut app, "SQL");
    app.handle_key_event(press(KeyCode::Char('v')));
    assert_eq!(app.state.row_detail_row(), None);
    app.record_query_outcome(SqlResult::Success(ctx.sample_data.clone()));
    app.handle_key_event(press(KeyCode::Char('v')));
    assert_eq!(app.state.row_detail_row(), Some(0));
}

#[test]
fn one_overlay_at_a_time_over_a_session() {
    let ctx = log_ctx(100);
    let mut app = App::new(&ctx);
    go_to(&mut app, "Visualize");
    let keys = [
        KeyCode::Char('/'), KeyCode::Char('v'), KeyCode::Enter, KeyCode::Char('v'),
        KeyCode::Char('/'), KeyCode::Esc, KeyCode::Char('/'), KeyCode::Esc, KeyCode::Char('v'),
        KeyCode::Down, KeyCode::Esc, KeyCode::Esc, KeyCode::Tab, KeyCode::Char('v'),
    ];
    for code in keys {
        app.handle_key_event(press(code));
        assert!(!(app.state.search_mode() && app.state.row_detail_row().is_some()));
        assert_eq!(
            app.state.search_filter().is_some(),
            app.state.filtered_sample_data().is_some()
        );
    }
}

#[test]
fn only_key_presses_are_handled() {
    let ctx = log_ctx(100);
    let mut app = App::new(&ctx);
    let mut release = press(KeyCode::Tab);
    release.kind = KeyEventKind::Release;
    let mut repeat = press(KeyCode::Tab);
    repeat.kind = KeyEventKind::Repeat;
    assert!(is_idle(&app.handle_event(Event::Key(release))));
    assert!(is_idle(&app.handle_event(Event::Key(repeat))));
    assert!(is_idle(&app.handle_event(Event::Other)));
    assert_eq!(app.tabs.active_index(), 0);
    app.handle_event(Event::Key(press(KeyCode::Tab)));
    assert_eq!(app.tabs.active_index(), 1);
    let mut quit = ctrl('x');
    quit.kind = KeyEventKind::Release;
    app.handle_event(Event::Key(quit));
    assert!(!app.exit);
}

#[test]
fn handle_event_hands_out_the_query() {
    let ctx = log_ctx(1);
    let mut app = App::new(&ctx);
    go_to(&mut app, "SQL");
    type_text(&mut app, "q");
    assert!(matches!(
        app.handle_event(Event::Key(press(KeyCode::Enter))),
        Action::RunQuery { path, query } if path == "/data/log.parquet" && query == "q"
    ));
}

#[test]
fn frame_sizes_the_data_window() {
    let ctx = log_ctx(100);
    let mut app = App::new(&ctx);
    app.prepare_frame(30);
    assert_eq!(app.state.visible_data_rows(), 23);
    app.prepare_frame(8);
    assert_eq!(app.state.visible_data_rows(), 1);
    app.prepare_frame(7);
    assert_eq!(app.state.visible_data_rows(), 1);
    app.prepare_frame(0);
    assert_eq!(app.state.visible_data_rows(), 1);
    app.prepare_frame(9);
    assert_eq!(app.state.visible_data_rows(), 2);
    app.prepare_frame(u16::MAX);
    assert_eq!(app.state.visible_data_rows(), 65528);
}

#[test]
fn frame_clamps_a_stale_selection() {
    let ctx = log_ctx(1000);
    let mut app = App::new(&ctx);
    go_to(&mut app, "Visualize");
    app.handle_key_event(press(KeyCode::Char('/')));
    type_text(&mut app, "error");
    app.handle_key_event(press(KeyCode::Enter));
    // A selection left over from the unfiltered table.
    for _ in 0..40 {
        app.state.down();
    }
    app.state.set_data_vertical_scroll(35);
    app.prepare_frame(17);
    assert_eq!(app.state.visible_data_rows(), 10);
    assert_eq!(app.state.vertical_offset(), 2);
    assert_eq!(app.state.data_vertical_scroll(), 0);
}

#[test]
fn frame_leaves_selection_in_other_views() {
    let ctx = log_ctx(3);
    let mut app = App::new(&ctx);
    go_to(&mut app, "Schema");
    app.handle_key_event(press(KeyCode::Down));
    app.handle_key_event(press(KeyCode::Down));
    app.state.set_data_vertical_scroll(5);
    app.prepare_frame(20);
    assert_eq!(app.state.vertical_offset(), 2);
    assert_eq!(app.state.data_vertical_scroll(), 5);
    go_to(&mut app, "SQL");
    app.state.down();
    app.prepare_frame(20);
    assert_eq!(app.state.vertical_offset(), 1);
    app.record_query_outcome(SqlResult::Success(
        ParquetSampleData::new(vec!["a".to_string()], vec![]).unwrap(),
    ));
    app.prepare_frame(20);
    assert_eq!(app.state.vertical_offset(), 0);
}

#[test]
fn render_view_reads_the_session() {
    let ctx = log_ctx(3);
    let mut app = App::new(&ctx);
    app.handle_key_event(press(KeyCode::Tab));
    app.handle_key_event(press(KeyCode::Down));
    let view = AppRenderView::from_app(&app);
    assert_eq!(view.title, "parqeye");
    assert_eq!(view.file_name(), "/data/log.parquet");
    assert_eq!(view.tabs().active_index(), 1);
    assert!(matches!(view.tabs().active_tab(), Tab::Schema(_)));
    assert_eq!(view.state().vertical_offset(), 1);
    assert_eq!(view.parquet_ctx.num_row_groups, 4);
}
