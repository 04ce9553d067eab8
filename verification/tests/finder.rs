use hummingbird::finder::FuzzyFinder;
use hummingbird::navigation::ViewSwitchMessage;
use hummingbird::search::{accept_search_selection, reload_search_items, search_finder, SearchPaletteItem};

fn settle<T: PartialEq>(finder: &mut FuzzyFinder<T>, expected: usize) {
    for _ in 0..500 {
        finder.poll();
        if finder.matches().len() == expected {
            break;
        }
    }
}

fn words() -> (Vec<&'static str>, Vec<String>) {
    let items = vec!["xyz", "abc", "abd", "zabcz"];
    let texts = items.iter().map(|s| s.to_string()).collect();
    (items, texts)
}

#[test]
fn a_new_finder_lists_nothing() {
    let (items, texts) = words();
    let finder = FuzzyFinder::new(items, &texts);
    assert!(finder.matches().is_empty());
    assert_eq!(finder.selection(), 0);
    assert_eq!(finder.query(), "");
    assert!(finder.accept().is_none());
}

#[test]
fn an_empty_query_lists_every_item_in_order() {
    let (items, texts) = words();
    let mut finder = FuzzyFinder::new(items, &texts);
    finder.set_query(String::new());
    settle(&mut finder, 4);
    assert_eq!(finder.matches(), &vec![0, 1, 2, 3]);
    assert_eq!(finder.accept(), Some(&"xyz"));
}

#[test]
fn a_query_lists_only_the_items_that_match() {
    let (items, texts) = words();
    let mut finder = FuzzyFinder::new(items, &texts);
    finder.set_query("abc".to_string());
    settle(&mut finder, 2);
    let mut found = finder.matches().clone();
    found.sort();
    assert_eq!(found, vec![1, 3]);
    // The exact match ranks above the one inside a longer word.
    assert_eq!(finder.matches()[0], 1);
    assert_eq!(finder.accept(), Some(&"abc"));
}

#[test]
fn selection_moves_within_the_list() {
    let (items, texts) = words();
    let mut finder = FuzzyFinder::new(items, &texts);
    finder.set_query(String::new());
    settle(&mut finder, 4);
    finder.select_previous();
    assert_eq!(finder.selection(), 0);
    finder.select_next();
    finder.select_next();
    finder.select_next();
    finder.select_next();
    assert_eq!(finder.selection(), 3);
    assert_eq!(finder.accept(), Some(&"zabcz"));
    finder.select_previous();
    assert_eq!(finder.selection(), 2);
    // A new query selects the first match again.
    finder.set_query("x".to_string());
    assert_eq!(finder.selection(), 0);
}

#[test]
fn replaced_items_are_matched_after_the_old_ones() {
    let (items, texts) = words();
    let mut finder = FuzzyFinder::new(items, &texts);
    finder.set_query("q".to_string());
    finder.replace_items(vec!["qq"], &vec!["qq".to_string()]);
    settle(&mut finder, 1);
    assert_eq!(finder.matches(), &vec![4]);
    assert_eq!(finder.item(4), Some(&"qq"));
    assert_eq!(finder.item(5), None);
    assert_eq!(finder.accept(), Some(&"qq"));
    // Nothing names the earlier list any more, so its items are gone.
    finder.poll();
    assert_eq!(finder.item_count(), 1);
    assert_eq!(finder.item(0), None);
    assert_eq!(finder.next_number(), 5);
}

#[test]
fn accepting_a_search_entry_opens_its_view() {
    let items = vec![
        SearchPaletteItem::Album { id: 7, title: "Blue Lines".to_string(), artist: "Massive Attack".to_string(), available: true },
        SearchPaletteItem::Artist { id: 3, name: "Portishead".to_string() },
        SearchPaletteItem::Track { id: 9, title: "Roads".to_string(), album_id: None },
    ];
    let mut finder = search_finder(items);
    finder.set_query("massive".to_string());
    settle(&mut finder, 1);
    assert_eq!(accept_search_selection(&finder), Some(ViewSwitchMessage::Release(7)));

    finder.set_query("portis".to_string());
    settle(&mut finder, 1);
    assert_eq!(accept_search_selection(&finder), Some(ViewSwitchMessage::Artist(3)));

    finder.set_query("roads".to_string());
    settle(&mut finder, 1);
    assert_eq!(finder.matches(), &vec![2]);
    assert_eq!(accept_search_selection(&finder), None);
}

#[test]
fn reloaded_search_entries_are_found() {
    let mut finder = search_finder(Vec::new());
    finder.set_query("dummy".to_string());
    reload_search_items(&mut finder, vec![SearchPaletteItem::Artist { id: 11, name: "Dummy".to_string() }]);
    settle(&mut finder, 1);
    assert_eq!(accept_search_selection(&finder), Some(ViewSwitchMessage::Artist(11)));
}

#[test]
fn accented_titles_are_found_and_counted() {
    let items = vec!["Beyonce\u{301}", "Bjork"];
    let texts: Vec<String> = items.iter().map(|s| s.to_string()).collect();
    let mut finder = FuzzyFinder::new(items, &texts);
    assert_eq!(finder.item_count(), 2);
    finder.set_query("beyonce".to_string());
    settle(&mut finder, 1);
    assert_eq!(finder.accept(), Some(&"Beyonce\u{301}"));
}

#[test]
fn reloading_equal_items_keeps_the_list() {
    let (items, texts) = words();
    let mut finder = FuzzyFinder::new(items.clone(), &texts);
    finder.set_query("abc".to_string());
    settle(&mut finder, 2);
    let before = finder.matches().clone();
    finder.replace_items(items, &texts);
    let mut changed = false;
    for _ in 0..100 {
        changed |= finder.poll();
    }
    // The matcher now numbers the same items anew, but they are equal, so nothing changes.
    assert!(!changed);
    assert_eq!(finder.matches(), &before);
    assert_eq!(finder.accept(), Some(&"abc"));
}
