use hummingbird::table::{
    ColumnSpec, Table, TableSettings, TableSort, TableViewMode, TableViewModeSetting,
    FALLBACK_COLUMN_WIDTH,
};

fn w(px: f32) -> u32 {
    px.to_bits()
}

fn catalogue() -> Vec<ColumnSpec> {
    vec![
        ColumnSpec { id: 0, name: "Title".to_string(), hideable: false, resizable: true },
        ColumnSpec { id: 1, name: "Artist".to_string(), hideable: true, resizable: true },
        ColumnSpec { id: 2, name: "Album".to_string(), hideable: true, resizable: true },
        ColumnSpec { id: 3, name: "Length".to_string(), hideable: true, resizable: false },
        ColumnSpec { id: 4, name: "Genre".to_string(), hideable: true, resizable: true },
    ]
}

fn defaults() -> Vec<(u64, u32)> {
    vec![(0, w(300.0)), (1, w(200.0)), (2, w(200.0)), (3, w(80.0))]
}

fn table(settings: Option<&TableSettings>) -> Table {
    Table::new("Tracks".to_string(), catalogue(), defaults(), settings)
}

fn visible(t: &Table) -> Vec<(u64, u32)> {
    t.header_columns().iter().map(|c| (c.0, c.1)).collect()
}

fn hidden_names(s: &TableSettings) -> Vec<String> {
    let mut names = s.hidden_columns.clone();
    names.sort();
    names
}

#[test]
fn new_table_shows_default_columns() {
    let t = table(None);
    assert_eq!(visible(&t), defaults());
    assert_eq!(t.view_mode(), TableViewMode::List);
    assert_eq!(t.sort_method(), None);
    assert_eq!(t.get_table_name(), "Tracks");
}

#[test]
fn settings_hide_columns_and_set_widths() {
    let settings = TableSettings {
        column_widths: vec![("Album".to_string(), w(150.0)), ("Title".to_string(), w(320.0))],
        hidden_columns: vec!["Artist".to_string(), "Title".to_string()],
        view_mode: TableViewModeSetting::Grid,
    };
    let t = table(Some(&settings));
    // Title cannot be hidden, so it stays; Artist is hidden.
    assert_eq!(visible(&t), vec![(0, w(320.0)), (2, w(150.0)), (3, w(80.0))]);
    assert!(!t.is_visible(1));
    assert_eq!(t.view_mode(), TableViewMode::Grid);
    let back = t.get_settings();
    assert_eq!(back.hidden_columns, vec!["Artist".to_string()]);
    assert_eq!(back.view_mode, TableViewModeSetting::Grid);
}

#[test]
fn hide_column_remembers_width() {
    let mut t = table(None);
    t.hide_column(2);
    assert_eq!(visible(&t), vec![(0, w(300.0)), (1, w(200.0)), (3, w(80.0))]);
    let s = t.get_settings();
    assert_eq!(s.hidden_columns, vec!["Album".to_string()]);
    assert!(s.column_widths.contains(&("Album".to_string(), w(200.0))));
}

#[test]
fn unhideable_column_stays() {
    let mut t = table(None);
    t.hide_column(0);
    assert_eq!(visible(&t), defaults());
    t.toggle_column(0);
    assert_eq!(visible(&t), defaults());
}

#[test]
fn toggle_twice_restores_columns() {
    let mut t = table(None);
    t.toggle_column(1);
    assert!(!t.is_visible(1));
    t.toggle_column(1);
    assert_eq!(visible(&t), defaults());
    assert!(t.get_settings().hidden_columns.is_empty());
}

#[test]
fn shown_column_goes_back_to_default_place() {
    let mut t = table(None);
    t.hide_column(1);
    t.hide_column(2);
    t.show_column(2);
    assert_eq!(visible(&t), vec![(0, w(300.0)), (2, w(200.0)), (3, w(80.0))]);
    t.show_column(1);
    assert_eq!(visible(&t), defaults());
}

#[test]
fn column_without_default_goes_first_with_fallback_width() {
    let mut t = table(None);
    t.show_column(4);
    let v = visible(&t);
    assert_eq!(v[0], (4, FALLBACK_COLUMN_WIDTH));
    assert_eq!(FALLBACK_COLUMN_WIDTH, 100.0f32.to_bits());
    assert_eq!(v.len(), 5);
}

#[test]
fn settings_round_trip() {
    let mut t = table(None);
    t.hide_column(3);
    t.hide_column(1);
    let s = t.get_settings();
    assert_eq!(hidden_names(&s), vec!["Artist".to_string(), "Length".to_string()]);
    let mut t2 = table(Some(&s));
    assert_eq!(visible(&t2), visible(&t));
    t2.show_column(1);
    t2.show_column(3);
    assert_eq!(visible(&t2), defaults());
}

#[test]
fn header_click_sorts_and_flips() {
    let mut t = table(None);
    t.click_column_header(2);
    assert_eq!(t.sort_method(), Some(TableSort { column: 2, ascending: true }));
    t.click_column_header(2);
    assert_eq!(t.sort_method(), Some(TableSort { column: 2, ascending: false }));
    t.click_column_header(0);
    assert_eq!(t.sort_method(), Some(TableSort { column: 0, ascending: true }));
}

#[test]
fn column_menu_lists_every_column() {
    let mut t = table(None);
    t.hide_column(1);
    let entries = t.column_menu_entries();
    assert_eq!(
        entries,
        vec![(0, true, false), (1, false, true), (2, true, true), (3, true, true), (4, false, true)]
    );
}

#[test]
fn header_cells_get_resize_handles() {
    let t = table(None);
    let cells = t.header_columns();
    assert_eq!(cells.len(), 4);
    assert!(cells[0].3);
    assert!(cells[2].3);
    // The last column gets no handle, and neither does a column that is not resizable.
    assert!(!cells[3].3);
    assert_eq!(cells[1].2, w(200.0));
}

#[test]
fn view_mode_switches() {
    let mut t = table(None);
    t.set_view_mode(TableViewMode::Grid);
    assert_eq!(t.view_mode(), TableViewMode::Grid);
    assert_eq!(t.get_settings().view_mode, TableViewModeSetting::Grid);
}

#[test]
fn dragging_a_column_edge_sets_its_width() {
    let mut t = table(None);
    assert_eq!(t.column_width_at(1), Some(w(200.0)));
    assert_eq!(t.column_width_at(9), None);
    t.set_column_width(1, w(250.0));
    assert_eq!(visible(&t), vec![(0, w(300.0)), (1, w(250.0)), (2, w(200.0)), (3, w(80.0))]);
    t.set_column_width(9, w(10.0));
    assert_eq!(t.column_width_at(1), Some(w(250.0)));
    let back = t.get_settings();
    assert!(back.column_widths.contains(&("Artist".to_string(), w(250.0))));
}
