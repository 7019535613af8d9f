use parqeye::keys::{KeyCode, KeyEvent, KeyEventKind, KeyModifiers};
use parqeye::sample_data::ParquetSampleData;
use parqeye::sql::SqlResult;
use parqeye::state::AppState;
use parqeye::tabs::{
    Instruction, MetadataTab, RowGroupsTab, SchemaTab, SqlTab, Tab, TabManager, VisualizeTab,
    TAB_COUNT,
};

fn tab_key(code: KeyCode) -> KeyEvent {
    KeyEvent {
        code,
        modifiers: KeyModifiers { control: false, shift: false, alt: false },
        kind: KeyEventKind::Press,
    }
}

fn tab_rows(n: usize) -> ParquetSampleData {
    let rows = (0..n).map(|i| vec![format!("row {}", i)]).collect();
    ParquetSampleData::new(vec!["c".to_string()], rows).unwrap()
}

fn hint_triples(hints: &[Instruction]) -> Vec<(String, String, bool)> {
    hints.iter().map(|h| (h.shortcut.clone(), h.label.clone(), h.highlighted)).collect()
}

#[test]
fn sql_tab_hints() {
    let hints = SqlTab::new().instructions();
    assert_eq!(
        hint_triples(&hints),
        vec![
            ("Enter".to_string(), "Run query".to_string(), true),
            ("[Esc]".to_string(), "Clear".to_string(), false),
            ("v".to_string(), "Row detail".to_string(), true),
        ]
    );
}

#[test]
fn tab_labels() {
    assert_eq!(MetadataTab.to_string(), "Metadata");
    assert_eq!(SchemaTab { max_vertical: 1 }.to_string(), "Schema");
    assert_eq!(RowGroupsTab { max_horizontal: 1, max_vertical: 1 }.to_string(), "Row Groups");
    assert_eq!(VisualizeTab { max_horizontal: 1, max_vertical: 1 }.to_string(), "Visualize");
    assert_eq!(SqlTab::new().to_string(), "SQL");
    assert_eq!(SqlTab::default().to_string(), "SQL");
    assert_eq!(Tab::Sql(SqlTab).to_string(), "SQL");
    assert_eq!(Tab::Metadata(MetadataTab).to_string(), "Metadata");
}

#[test]
fn other_tab_hints() {
    assert!(MetadataTab.instructions().is_empty());
    assert_eq!(
        hint_triples(&SchemaTab { max_vertical: 1 }.instructions()),
        vec![("Up/Down".to_string(), "Select column".to_string(), true)]
    );
    assert_eq!(RowGroupsTab { max_horizontal: 1, max_vertical: 1 }.instructions().len(), 2);
    let visualize = VisualizeTab { max_horizontal: 1, max_vertical: 1 };
    assert_eq!(visualize.instructions().len(), 4);
    assert_eq!(Tab::Visualize(visualize).instructions().len(), 4);
    assert_eq!(Tab::Sql(SqlTab).instructions().len(), 3);
}

#[test]
fn sql_tab_edits_the_query() {
    let tab = SqlTab::new();
    let mut s = AppState::new();
    for c in "select 1".chars() {
        tab.on_event(tab_key(KeyCode::Char(c)), &mut s);
    }
    assert_eq!(s.sql_query(), "select 1");
    tab.on_event(tab_key(KeyCode::Backspace), &mut s);
    assert_eq!(s.sql_query(), "select ");
    tab.on_event(tab_key(KeyCode::Down), &mut s);
    tab.on_event(tab_key(KeyCode::Up), &mut s);
    tab.on_event(tab_key(KeyCode::Left), &mut s);
    tab.on_event(tab_key(KeyCode::PageDown), &mut s);
    assert_eq!(s.sql_query(), "select ");
    assert_eq!(s.vertical_offset(), 0);
    assert_eq!(s.horizontal_offset(), 0);
}

#[test]
fn sql_tab_row_detail_needs_a_successful_outcome() {
    let tab = SqlTab::new();
    let mut s = AppState::new();
    tab.on_event(tab_key(KeyCode::Char('v')), &mut s);
    assert_eq!(s.row_detail_row(), None);
    assert_eq!(s.sql_query(), "");
    s.set_sql_result(SqlResult::Failure("bad".to_string()));
    tab.on_event(tab_key(KeyCode::Char('V')), &mut s);
    assert_eq!(s.row_detail_row(), None);
    assert_eq!(s.sql_query(), "");
    s.set_sql_result(SqlResult::Success(tab_rows(3)));
    s.detail_scroll_down(4);
    tab.on_event(tab_key(KeyCode::Char('v')), &mut s);
    assert_eq!(s.row_detail_row(), Some(0));
    assert_eq!(s.detail_scroll_offset(), 0);
    assert_eq!(s.sql_query(), "");
}

#[test]
fn metadata_tab_is_read_only() {
    let mut s = AppState::new();
    for code in [KeyCode::Down, KeyCode::Right, KeyCode::PageDown, KeyCode::Char('v'), KeyCode::Enter] {
        MetadataTab.on_event(tab_key(code), &mut s);
    }
    assert_eq!(s.vertical_offset(), 0);
    assert_eq!(s.horizontal_offset(), 0);
    assert_eq!(s.row_detail_row(), None);
}

#[test]
fn schema_tab_selects_header_and_columns() {
    let tab = SchemaTab { max_vertical: 3 };
    let mut s = AppState::new();
    for _ in 0..10 {
        tab.on_event(tab_key(KeyCode::Down), &mut s);
    }
    assert_eq!(s.vertical_offset(), 3);
    tab.on_event(tab_key(KeyCode::Up), &mut s);
    assert_eq!(s.vertical_offset(), 2);
    for _ in 0..10 {
        tab.on_event(tab_key(KeyCode::Up), &mut s);
    }
    assert_eq!(s.vertical_offset(), 0);
    tab.on_event(tab_key(KeyCode::Right), &mut s);
    assert_eq!(s.horizontal_offset(), 0);
}

#[test]
fn row_groups_tab_moves_in_two_directions() {
    let tab = RowGroupsTab { max_horizontal: 4, max_vertical: 2 };
    let mut s = AppState::new();
    for _ in 0..10 {
        tab.on_event(tab_key(KeyCode::Right), &mut s);
        tab.on_event(tab_key(KeyCode::Down), &mut s);
    }
    assert_eq!(s.horizontal_offset(), 3);
    assert_eq!(s.vertical_offset(), 2);
    tab.on_event(tab_key(KeyCode::Left), &mut s);
    tab.on_event(tab_key(KeyCode::Up), &mut s);
    assert_eq!(s.horizontal_offset(), 2);
    assert_eq!(s.vertical_offset(), 1);
    let none = RowGroupsTab { max_horizontal: 0, max_vertical: 0 };
    let mut t = AppState::new();
    none.on_event(tab_key(KeyCode::Right), &mut t);
    none.on_event(tab_key(KeyCode::Down), &mut t);
    assert_eq!((t.horizontal_offset(), t.vertical_offset()), (0, 0));
}

#[test]
fn visualize_tab_moves_over_rows() {
    let tab = VisualizeTab { max_horizontal: 3, max_vertical: 100 };
    let mut s = AppState::new();
    s.set_visible_data_rows(10);
    for _ in 0..12 {
        tab.on_event(tab_key(KeyCode::Down), &mut s);
    }
    assert_eq!(s.vertical_offset(), 12);
    assert_eq!(s.data_vertical_scroll(), 3);
    for _ in 0..12 {
        tab.on_event(tab_key(KeyCode::Up), &mut s);
    }
    assert_eq!(s.vertical_offset(), 0);
    assert_eq!(s.data_vertical_scroll(), 0);
    for _ in 0..200 {
        tab.on_event(tab_key(KeyCode::Down), &mut s);
    }
    assert_eq!(s.vertical_offset(), 99);
    assert_eq!(s.data_vertical_scroll(), 90);
    for _ in 0..9 {
        tab.on_event(tab_key(KeyCode::Right), &mut s);
    }
    assert_eq!(s.horizontal_offset(), 2);
    tab.on_event(tab_key(KeyCode::Left), &mut s);
    assert_eq!(s.horizontal_offset(), 1);
}

#[test]
fn visualize_tab_pages() {
    let tab = VisualizeTab { max_horizontal: 3, max_vertical: 100 };
    let mut s = AppState::new();
    s.set_visible_data_rows(10);
    for _ in 0..5 {
        tab.on_event(tab_key(KeyCode::PageDown), &mut s);
    }
    assert_eq!(s.vertical_offset(), 50);
    assert_eq!(s.data_vertical_scroll(), 41);
    tab.on_event(tab_key(KeyCode::PageUp), &mut s);
    assert_eq!(s.vertical_offset(), 40);
    assert_eq!(s.data_vertical_scroll(), 40);
}

#[test]
fn visualize_tab_counts_filtered_rows() {
    let tab = VisualizeTab { max_horizontal: 1, max_vertical: 100 };
    let data = tab_rows(100);
    let mut s = AppState::new();
    s.set_visible_data_rows(10);
    s.start_search();
    for c in "row 1".chars() {
        s.push_search_char(c);
    }
    // "row 1" and "row 10" to "row 19": eleven rows.
    s.commit_search(&data);
    assert_eq!(s.filtered_sample_data().unwrap().total_rows(), 11);
    for _ in 0..50 {
        tab.on_event(tab_key(KeyCode::Down), &mut s);
    }
    assert_eq!(s.vertical_offset(), 10);
    assert_eq!(s.data_vertical_scroll(), 1);
    tab.on_event(tab_key(KeyCode::PageDown), &mut s);
    assert_eq!(s.vertical_offset(), 10);
}

#[test]
fn visualize_tab_opens_row_detail() {
    let tab = VisualizeTab { max_horizontal: 1, max_vertical: 10 };
    let mut s = AppState::new();
    tab.on_event(tab_key(KeyCode::Down), &mut s);
    tab.on_event(tab_key(KeyCode::Down), &mut s);
    tab.on_event(tab_key(KeyCode::Char('v')), &mut s);
    assert_eq!(s.row_detail_row(), Some(2));
    let mut t = AppState::new();
    tab.on_event(tab_key(KeyCode::Char('V')), &mut t);
    assert_eq!(t.row_detail_row(), Some(0));
    let mut u = AppState::new();
    tab.on_event(tab_key(KeyCode::Char('w')), &mut u);
    assert_eq!(u.row_detail_row(), None);
}

#[test]
fn tab_manager_starts_on_the_first_view() {
    let tabs = TabManager::new(3, 2, 50);
    assert_eq!(tabs.active_index(), 0);
    assert_eq!(tabs.active_tab(), Tab::Metadata(MetadataTab));
    assert_eq!(TAB_COUNT, 5);
}

#[test]
fn tab_manager_cycles_forward() {
    let mut tabs = TabManager::new(3, 2, 50);
    let mut seen = vec![tabs.active_tab()];
    for _ in 0..5 {
        tabs.next();
        seen.push(tabs.active_tab());
    }
    assert_eq!(
        seen,
        vec![
            Tab::Metadata(MetadataTab),
            Tab::Schema(SchemaTab { max_vertical: 3 }),
            Tab::RowGroups(RowGroupsTab { max_horizontal: 2, max_vertical: 3 }),
            Tab::Visualize(VisualizeTab { max_horizontal: 3, max_vertical: 50 }),
            Tab::Sql(SqlTab),
            Tab::Metadata(MetadataTab),
        ]
    );
}

#[test]
fn tab_manager_cycles_backward() {
    let mut tabs = TabManager::new(3, 2, 50);
    tabs.prev();
    assert_eq!(tabs.active_index(), 4);
    assert!(tabs.active_tab().is_sql());
    tabs.prev();
    assert_eq!(tabs.active_index(), 3);
    tabs.next();
    tabs.next();
    assert_eq!(tabs.active_index(), 0);
    assert!(!tabs.active_tab().is_sql());
}

#[test]
fn tab_dispatches_to_its_view() {
    let mut s = AppState::new();
    Tab::Schema(SchemaTab { max_vertical: 2 }).on_event(tab_key(KeyCode::Down), &mut s);
    assert_eq!(s.vertical_offset(), 1);
    Tab::Sql(SqlTab).on_event(tab_key(KeyCode::Char('a')), &mut s);
    assert_eq!(s.sql_query(), "a");
    Tab::Metadata(MetadataTab).on_event(tab_key(KeyCode::Down), &mut s);
    assert_eq!(s.vertical_offset(), 1);
}
