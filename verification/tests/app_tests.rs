use eradicate_tui::App;
use eradicate_tui::AppMode;
use eradicate_tui::PathEntry;
use eradicate_tui::SearchError;
use eradicate_tui::StatefulList;

fn entry(path: &str, is_file: bool, marked: bool) -> PathEntry {
    let mut e = PathEntry::new(path.to_string(), is_file);
    if !marked {
        e.toggle_delete();
    }
    e
}

#[test]
fn new_app_defaults() {
    let app = App::new();
    assert_eq!(app.app_mode, AppMode::Normal);
    assert!(app.is_case_sensitive());
    assert!(app.list.items.is_empty());
    assert_eq!(app.list.get_index(), None);
    assert_eq!(app.pattern.name, "Pattern");
    assert_eq!(app.pattern.content, "");
}

#[test]
fn entry_starts_marked_for_delete() {
    let e = PathEntry::new("somewhere/a.txt".to_string(), true);
    assert!(e.is_delete());
    assert!(e.is_file);
    assert_eq!(e.path, "somewhere/a.txt");
}

#[test]
fn toggle_delete_twice_restores_entry() {
    let mut e = PathEntry::new("a".to_string(), false);
    let before = e.clone();
    e.toggle_delete();
    assert!(!e.is_delete());
    e.toggle_delete();
    assert_eq!(e, before);
    assert!(e.is_delete());
}

#[test]
fn set_app_mode_switches_only_the_mode() {
    let mut app = App::new();
    app.set_app_mode(AppMode::Insert);
    assert_eq!(app.app_mode, AppMode::Insert);
    assert!(app.list.items.is_empty());
    app.set_app_mode(AppMode::Normal);
    assert_eq!(app.app_mode, AppMode::Normal);
}

#[test]
fn push_and_pop_edit_the_pattern() {
    let mut app = App::new();
    app.push_ch('a');
    app.push_ch('*');
    assert_eq!(app.pattern.content, "a*");
    app.pop_ch();
    assert_eq!(app.pattern.content, "a");
    app.pop_ch();
    assert_eq!(app.pattern.content, "");
    app.pop_ch();
    assert_eq!(app.pattern.content, "");
}

#[test]
fn toggle_case_sensitive_flips_the_flag() {
    let mut app = App::new();
    assert!(app.is_case_sensitive());
    app.toggle_case_sensitive();
    assert!(!app.is_case_sensitive());
    app.toggle_case_sensitive();
    assert!(app.is_case_sensitive());
}

#[test]
fn toggle_delete_flips_only_the_selected_entry() {
    let mut app = App::new();
    app.list = StatefulList::with_items(vec![
        entry("a", true, true),
        entry("b", true, true),
        entry("c", true, true),
    ]);
    app.list.next();
    app.toggle_delete();
    assert!(app.list.items[0].is_delete());
    assert!(!app.list.items[1].is_delete());
    assert!(app.list.items[2].is_delete());
    assert_eq!(app.list.get_index(), Some(1));
}

#[test]
fn toggle_delete_without_selection_is_a_noop() {
    let mut app = App::new();
    app.toggle_delete();
    assert!(app.list.items.is_empty());
    assert_eq!(app.list.get_index(), None);
    let mut app2 = App::new();
    app2.list = StatefulList::with_items(vec![entry("a", true, true)]);
    app2.list.unselect();
    app2.toggle_delete();
    assert!(app2.list.items[0].is_delete());
}

#[test]
fn get_entries_by_partitions_by_mark() {
    let mut app = App::new();
    app.list = StatefulList::with_items(vec![
        entry("a", true, true),
        entry("b", false, false),
        entry("c", true, true),
    ]);
    let marked = app.get_entries_by(true);
    let unmarked = app.get_entries_by(false);
    assert_eq!(marked, vec![entry("a", true, true), entry("c", true, true)]);
    assert_eq!(unmarked, vec![entry("b", false, false)]);
}

#[test]
fn commit_delete_keeps_exactly_the_unmarked_survivors() {
    let mut app = App::new();
    app.list = StatefulList::with_items(vec![
        entry("a", true, true),
        entry("b", true, true),
        entry("c", true, true),
    ]);
    // Unmark the entry at index 1; entries 0 and 2 stay marked.
    app.list.next();
    app.toggle_delete();
    app.delete_active_entries(true);
    assert_eq!(app.list.items, vec![entry("b", true, false)]);
    assert_eq!(app.list.get_index(), Some(0));
    assert!(app.list.items.iter().all(|e| !e.is_delete()));
}

#[test]
fn commit_delete_of_everything_leaves_an_empty_list() {
    let mut app = App::new();
    app.list = StatefulList::with_items(vec![entry("a", true, true), entry("b", false, true)]);
    app.delete_active_entries(true);
    assert!(app.list.items.is_empty());
    assert_eq!(app.list.get_index(), None);
}

#[test]
fn failed_commit_delete_changes_nothing() {
    let mut app = App::new();
    app.list = StatefulList::with_items(vec![
        entry("a", true, true),
        entry("b", true, false),
        entry("c", true, true),
    ]);
    app.list.next();
    let before = app.list.clone();
    app.delete_active_entries(false);
    assert_eq!(app.list, before);
    assert_eq!(app.list.get_index(), Some(1));
}

#[test]
fn malformed_pattern_keeps_list_and_reverts_mode() {
    let mut app = App::new();
    app.list = StatefulList::with_items(vec![entry("kept", true, true)]);
    app.list.next();
    let before = app.list.clone();
    app.set_app_mode(AppMode::Insert);
    app.push_ch('[');
    let r = app.set_pattern();
    assert_eq!(r, Err(SearchError::InvalidPattern));
    assert_eq!(app.app_mode, AppMode::Normal);
    assert_eq!(app.list, before);
    assert_eq!(app.pattern.content, "[");
}

#[test]
fn pattern_matching_nothing_yields_an_empty_list() {
    let mut app = App::new();
    app.list = StatefulList::with_items(vec![entry("old", true, true)]);
    app.pattern.content = "no_such_directory_anywhere_0x7f/*".to_string();
    let r = app.set_pattern();
    assert_eq!(r, Ok(()));
    assert!(app.list.items.is_empty());
    assert_eq!(app.list.get_index(), None);
}
