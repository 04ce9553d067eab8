use std::time::Instant;

use hummingbird::dropdown::{DropdownOption, DropdownState, TypeToFindState};

fn options() -> Vec<DropdownOption> {
    vec![
        DropdownOption::new("en".to_string(), "English".to_string()),
        DropdownOption::new("de".to_string(), "Deutsch".to_string()),
        DropdownOption::new("el".to_string(), "Ελληνικά".to_string()),
        DropdownOption::new("es".to_string(), "Español".to_string()),
    ]
}

#[test]
fn moving_the_highlight_stays_inside() {
    let mut d = DropdownState::new(options(), 1);
    d.toggle_open();
    assert!(d.is_open());
    assert_eq!(d.highlighted_index(), 1);
    d.select_prev();
    d.select_prev();
    assert_eq!(d.highlighted_index(), 0);
    d.select_last();
    assert_eq!(d.highlighted_index(), 3);
    d.select_next();
    assert_eq!(d.highlighted_index(), 3);
    d.select_first();
    d.select_next();
    d.select_prev();
    assert_eq!(d.highlighted_index(), 0);
}

#[test]
fn confirm_selects_and_closes() {
    let mut d = DropdownState::new(options(), 0);
    d.toggle_open();
    d.select_next();
    d.select_next();
    assert_eq!(d.confirm(), Some(2));
    assert!(!d.is_open());
    assert_eq!(d.selected_index(), 2);
    assert_eq!(d.selected_label(), Some("Ελληνικά".to_string()));
}

#[test]
fn confirm_out_of_range_keeps_selection() {
    let mut d = DropdownState::new(options(), 9);
    assert_eq!(d.selected_label(), None);
    d.toggle_open();
    assert_eq!(d.confirm(), None);
    assert_eq!(d.selected_index(), 9);
}

#[test]
fn click_option_confirms_it() {
    let mut d = DropdownState::new(options(), 0);
    d.toggle_open();
    assert_eq!(d.click_option(3), Some(3));
    assert_eq!(d.selected_index(), 3);
    assert!(!d.is_open());
}

#[test]
fn typing_jumps_to_first_match_ignoring_case() {
    let mut d = DropdownState::new(options(), 0);
    d.toggle_open();
    d.handle_key('e');
    assert_eq!(d.highlighted_index(), 0);
    d.handle_key('S');
    assert_eq!(d.highlighted_index(), 3);
    d.handle_key('z');
    assert_eq!(d.highlighted_index(), 3);
}

#[test]
fn typing_matches_non_ascii_labels() {
    let mut d = DropdownState::new(options(), 0);
    d.toggle_open();
    d.handle_key('ε');
    assert_eq!(d.highlighted_index(), 2);
}

#[test]
fn reopening_forgets_typed_text() {
    let mut d = DropdownState::new(options(), 1);
    d.toggle_open();
    d.handle_key('e');
    d.toggle_open();
    assert!(!d.is_open());
    d.toggle_open();
    assert_eq!(d.highlighted_index(), 1);
    d.handle_key('s');
    assert_eq!(d.highlighted_index(), 1);
}

#[test]
fn pause_starts_a_new_search() {
    let now = Instant::now();
    let mut t = TypeToFindState::new();
    t.record_keystroke('e', now, None);
    t.record_keystroke('s', now, Some(100));
    assert_eq!(t.find_match(&options()), Some(3));
    t.record_keystroke('d', now, Some(501));
    assert_eq!(t.find_match(&options()), Some(1));
    t.clear();
    assert_eq!(t.find_match(&options()), None);
}

#[test]
fn push_char_records_keystrokes() {
    let mut t = TypeToFindState::new();
    t.push_char('D');
    assert_eq!(t.find_match(&options()), Some(1));
}
