use miller_nav::entry::Entry;
use miller_nav::level::Level;
use miller_nav::navigator::{InitError, Navigator};

fn dir(parent: &str, name: &str) -> Entry {
    Entry::new(name.to_string(), format!("{}/{}", parent, name), true)
}

fn file(parent: &str, name: &str) -> Entry {
    Entry::new(name.to_string(), format!("{}/{}", parent, name), false)
}

fn home_listing() -> Vec<Entry> {
    vec![dir("/home/u", "Documents"), file("/home/u", "Photo.png"), dir("/home/u", "src")]
}

fn home() -> Navigator {
    Navigator::new("/home/u".to_string(), home_listing())
}

fn numbered(parent: &str, count: usize) -> Vec<Entry> {
    let mut entries = Vec::new();
    for i in 0..count {
        entries.push(file(parent, &format!("f{}", i)));
    }
    entries
}

fn cursor(navigator: &Navigator) -> (usize, usize) {
    (navigator.top().selected(), navigator.top().offset())
}

#[test]
fn new_navigator_holds_the_root_only() {
    let navigator = home();
    assert_eq!(navigator.depth(), 1);
    assert_eq!(navigator.top().path(), "/home/u");
    assert_eq!(navigator.top().entries(), &home_listing());
    assert_eq!(cursor(&navigator), (0, 0));
    assert_eq!(navigator.top().selected_entry().unwrap().name, "Documents");
}

#[test]
fn scroll_descend_ascend_scenario() {
    let mut navigator = home();
    assert_eq!(cursor(&navigator), (0, 0));
    assert_eq!(navigator.top().selected_entry().unwrap().name, "Documents");

    navigator.scroll_down(2);
    assert_eq!(cursor(&navigator), (1, 0));
    navigator.scroll_down(2);
    assert_eq!(cursor(&navigator), (2, 1));
    assert_eq!(navigator.top().selected_entry().unwrap().name, "src");

    assert_eq!(navigator.descend_target(), Some("/home/u/src".to_string()));
    let listing = vec![file("/home/u/src", "main.rs"), file("/home/u/src", "lib.rs")];
    navigator.navigate_into(Some(listing.clone()));
    assert_eq!(navigator.depth(), 2);
    assert_eq!(navigator.top().path(), "/home/u/src");
    assert_eq!(navigator.top().entries(), &listing);
    assert_eq!(cursor(&navigator), (0, 0));

    navigator.navigate_back();
    assert_eq!(navigator.depth(), 1);
    assert_eq!(navigator.top().path(), "/home/u");
    assert_eq!(navigator.top().entries(), &home_listing());
    assert_eq!(cursor(&navigator), (2, 1));
}

#[test]
fn scroll_up_at_first_row_changes_nothing() {
    let mut navigator = home();
    navigator.scroll_up();
    assert_eq!(cursor(&navigator), (0, 0));
    assert_eq!(navigator.depth(), 1);
}

#[test]
fn navigate_back_at_root_changes_nothing() {
    let mut navigator = home();
    navigator.scroll_down(2);
    navigator.navigate_back();
    assert_eq!(navigator.depth(), 1);
    assert_eq!(navigator.top().path(), "/home/u");
    assert_eq!(cursor(&navigator), (1, 0));
}

#[test]
fn selection_stays_on_a_row_of_the_listing() {
    let mut navigator = home();
    for _ in 0..10 {
        navigator.scroll_down(2);
        assert!(navigator.top().selected() < 3);
    }
    assert_eq!(cursor(&navigator), (2, 1));
    for _ in 0..10 {
        navigator.scroll_up();
        assert!(navigator.top().selected() < 3);
    }
    assert_eq!(cursor(&navigator), (0, 0));
}

#[test]
fn cursor_stays_inside_the_window() {
    let rows = 4;
    let mut navigator = Navigator::new("/d".to_string(), numbered("/d", 12));
    let moves = [true, true, true, true, true, true, false, false, false, false, false, false,
        false, true, true, true, true, true, true, true, true, true, true, true, true, false];
    for down in moves {
        if down {
            navigator.scroll_down(rows);
        } else {
            navigator.scroll_up();
        }
        let (selected, offset) = cursor(&navigator);
        assert!(offset <= selected);
        assert!(selected < offset + rows);
    }
    assert_eq!(cursor(&navigator), (10, 8));
}

#[test]
fn window_follows_the_cursor_one_row_at_a_time() {
    let mut navigator = Navigator::new("/d".to_string(), numbered("/d", 6));
    let mut seen = Vec::new();
    for _ in 0..5 {
        navigator.scroll_down(3);
        seen.push(cursor(&navigator));
    }
    assert_eq!(seen, vec![(1, 0), (2, 0), (3, 1), (4, 2), (5, 3)]);
    seen.clear();
    for _ in 0..5 {
        navigator.scroll_up();
        seen.push(cursor(&navigator));
    }
    assert_eq!(seen, vec![(4, 3), (3, 3), (2, 2), (1, 1), (0, 0)]);
}

#[test]
fn smaller_window_moves_the_offset_by_one_row_only() {
    let mut navigator = Navigator::new("/d".to_string(), numbered("/d", 10));
    for _ in 0..5 {
        navigator.scroll_down(10);
    }
    assert_eq!(cursor(&navigator), (5, 0));
    navigator.scroll_down(2);
    assert_eq!(cursor(&navigator), (6, 1));
}

#[test]
fn scroll_down_without_visible_rows_keeps_offset_at_or_above_cursor() {
    let mut navigator = home();
    navigator.scroll_down(0);
    assert_eq!(cursor(&navigator), (1, 1));
    navigator.scroll_down(0);
    assert_eq!(cursor(&navigator), (2, 2));
    navigator.scroll_down(0);
    assert_eq!(cursor(&navigator), (2, 2));
}

#[test]
fn scroll_down_on_last_row_changes_nothing() {
    let mut navigator = home();
    navigator.scroll_down(5);
    navigator.scroll_down(5);
    assert_eq!(cursor(&navigator), (2, 0));
    navigator.scroll_down(5);
    assert_eq!(cursor(&navigator), (2, 0));
}

#[test]
fn scroll_on_empty_listing_changes_nothing() {
    let mut navigator = Navigator::new("/empty".to_string(), Vec::new());
    navigator.scroll_down(3);
    assert_eq!(cursor(&navigator), (0, 0));
    navigator.scroll_up();
    assert_eq!(cursor(&navigator), (0, 0));
    assert!(navigator.top().selected_entry().is_none());
}

#[test]
fn descend_on_empty_listing_changes_nothing() {
    let mut navigator = Navigator::new("/empty".to_string(), Vec::new());
    assert_eq!(navigator.descend_target(), None);
    navigator.navigate_into(Some(home_listing()));
    assert_eq!(navigator.depth(), 1);
    assert_eq!(navigator.top().path(), "/empty");
    assert!(navigator.top().entries().is_empty());
}

#[test]
fn descend_on_a_file_changes_nothing() {
    let mut navigator = home();
    navigator.scroll_down(2);
    assert_eq!(navigator.top().selected_entry().unwrap().name, "Photo.png");
    assert_eq!(navigator.descend_target(), None);
    navigator.navigate_into(Some(numbered("/home/u/Photo.png", 2)));
    assert_eq!(navigator.depth(), 1);
    assert_eq!(navigator.top().path(), "/home/u");
    assert_eq!(navigator.top().entries(), &home_listing());
    assert_eq!(cursor(&navigator), (1, 0));
    navigator.navigate_into(None);
    assert_eq!(navigator.depth(), 1);
    assert_eq!(cursor(&navigator), (1, 0));
}

#[test]
fn descend_after_failed_read_opens_an_empty_level() {
    let mut navigator = home();
    assert_eq!(navigator.descend_target(), Some("/home/u/Documents".to_string()));
    navigator.navigate_into(None);
    assert_eq!(navigator.depth(), 2);
    assert_eq!(navigator.top().path(), "/home/u/Documents");
    assert!(navigator.top().entries().is_empty());
    assert_eq!(cursor(&navigator), (0, 0));
    assert_eq!(navigator.descend_target(), None);
}

#[test]
fn descend_then_ascend_restores_the_depth() {
    let mut navigator = home();
    navigator.navigate_into(Some(vec![dir("/home/u/Documents", "work")]));
    assert_eq!(navigator.depth(), 2);
    for depth in 2..6 {
        assert_eq!(navigator.depth(), depth);
        let target = navigator.descend_target().unwrap();
        navigator.navigate_into(Some(vec![dir(&target, "deeper")]));
        assert_eq!(navigator.depth(), depth + 1);
        navigator.navigate_back();
        assert_eq!(navigator.depth(), depth);
        navigator.navigate_into(Some(vec![dir(&target, "deeper")]));
    }
    assert_eq!(navigator.top().path(), "/home/u/Documents/work/deeper/deeper/deeper");
}

#[test]
fn repeated_ascents_stop_at_the_root() {
    let mut navigator = home();
    navigator.navigate_into(Some(vec![dir("/home/u/Documents", "a")]));
    navigator.navigate_into(Some(vec![dir("/home/u/Documents/a", "b")]));
    navigator.navigate_into(Some(Vec::new()));
    assert_eq!(navigator.depth(), 4);
    let mut depths = Vec::new();
    for _ in 0..6 {
        navigator.navigate_back();
        depths.push(navigator.depth());
    }
    assert_eq!(depths, vec![3, 2, 1, 1, 1, 1]);
    assert_eq!(navigator.top().path(), "/home/u");
}

#[test]
fn descending_again_starts_at_the_top() {
    let mut navigator = home();
    navigator.navigate_into(Some(numbered("/home/u/Documents", 5)));
    navigator.scroll_down(2);
    navigator.scroll_down(2);
    navigator.scroll_down(2);
    assert_eq!(cursor(&navigator), (3, 2));
    navigator.navigate_back();
    navigator.navigate_into(Some(numbered("/home/u/Documents", 4)));
    assert_eq!(cursor(&navigator), (0, 0));
    assert_eq!(navigator.top().entries().len(), 4);
}

#[test]
fn scrolling_moves_the_top_level_only() {
    let mut navigator = home();
    navigator.scroll_down(2);
    navigator.scroll_down(2);
    navigator.navigate_into(Some(numbered("/home/u/src", 3)));
    navigator.scroll_down(2);
    navigator.scroll_up();
    navigator.scroll_down(2);
    navigator.scroll_down(2);
    assert_eq!(cursor(&navigator), (2, 1));
    let root = navigator.level(0);
    assert_eq!((root.selected(), root.offset()), (2, 1));
    assert_eq!(root.path(), "/home/u");
    assert_eq!(navigator.level(1).path(), "/home/u/src");
}

#[test]
fn level_scrolls_on_its_own() {
    let mut level = Level::new("/d".to_string(), numbered("/d", 3));
    level.scroll_down(1);
    assert_eq!((level.selected(), level.offset()), (1, 1));
    level.scroll_up();
    assert_eq!((level.selected(), level.offset()), (0, 0));
    assert_eq!(level.selected_entry().unwrap().path, "/d/f0");
}

#[test]
fn entry_clone_keeps_every_field() {
    let entry = dir("/home/u", "src");
    let copy = entry.clone();
    assert_eq!(copy, entry);
    assert_eq!(copy.name, "src");
    assert_eq!(copy.path, "/home/u/src");
    assert!(copy.is_directory);
}

#[test]
fn initialize_starts_at_the_home_directory() {
    let navigator =
        Navigator::initialize(Some("/home/u".to_string()), Some(home_listing())).unwrap();
    assert_eq!(navigator.depth(), 1);
    assert_eq!(navigator.top().path(), "/home/u");
    assert_eq!(navigator.top().entries(), &home_listing());
    assert_eq!(cursor(&navigator), (0, 0));
}

#[test]
fn initialize_fails_without_a_home_directory() {
    assert_eq!(Navigator::initialize(None, None).unwrap_err(), InitError::HomeUnknown);
    assert_eq!(
        Navigator::initialize(None, Some(home_listing())).unwrap_err(),
        InitError::HomeUnknown
    );
}

#[test]
fn initialize_fails_when_home_cannot_be_listed() {
    assert_eq!(
        Navigator::initialize(Some("/home/u".to_string()), None).unwrap_err(),
        InitError::HomeUnreadable
    );
}

#[test]
fn listing_keeps_the_order_it_was_read_in() {
    let listing = vec![file("/d", "zeta"), dir("/d", "alpha"), file("/d", "Mid")];
    let mut navigator = Navigator::new("/d".to_string(), listing);
    let names: Vec<&str> =
        navigator.top().entries().iter().map(|entry| entry.name.as_str()).collect();
    assert_eq!(names, vec!["zeta", "alpha", "Mid"]);
    navigator.scroll_down(3);
    assert_eq!(navigator.top().selected_entry().unwrap().name, "alpha");
    assert_eq!(navigator.descend_target(), Some("/d/alpha".to_string()));
}
