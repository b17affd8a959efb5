use mcp_tools::path_key::{project_key, project_root_key};
use mcp_tools::watcher::{effective_debounce_ms, initial_auto_index, StartOutcome, WatcherManager, DEFAULT_DEBOUNCE_MS};

fn manager(enabled: bool) -> WatcherManager<u32> {
    WatcherManager::new(enabled, true)
}

#[test]
fn key_rewrites_backslashes_where_they_separate() {
    assert_eq!(project_key(true, "C:\\work\\proj"), "C:/work/proj");
    assert_eq!(project_key(true, "/home/u/proj"), "/home/u/proj");
    assert_eq!(project_key(true, ""), "");
}

#[test]
fn key_keeps_backslashes_where_they_are_name_characters() {
    assert_eq!(project_key(false, "/a\\b"), "/a\\b");
    assert_ne!(project_key(false, "/a\\b"), project_key(false, "/a/b"));
    let mut m: WatcherManager<u32> = WatcherManager::new(true, false);
    assert_eq!(m.start_watching(Some("/a\\b"), "/a\\b", 1), StartOutcome::Started);
    assert!(!m.is_watching(Some("/a/b"), "/a/b"));
    assert_eq!(m.start_watching(Some("/a/b"), "/a/b", 2), StartOutcome::Started);
    assert_eq!(m.get_watching_projects(), vec!["/a\\b".to_string(), "/a/b".to_string()]);
}

#[test]
fn mixed_separators_give_one_key() {
    let a = project_key(true, "/home/u\\proj/src");
    let b = project_key(true, "\\home\\u/proj\\src");
    assert_eq!(a, b);
    assert_eq!(project_key(true, &a), a);
}

#[test]
fn unresolved_root_falls_back_to_given_path() {
    assert_eq!(project_root_key(true, None, "rel\\dir"), "rel/dir");
    assert_eq!(project_root_key(true, Some("/abs/dir"), "rel\\dir"), "/abs/dir");
    assert_eq!(
        project_root_key(true, Some("/abs/dir"), "./dir"),
        project_root_key(true, Some("\\abs\\dir"), "../x/dir")
    );
}

#[test]
fn manager_normalises_keys() {
    let mut m = manager(true);
    assert_eq!(m.start_watching(Some("C:\\p\\q"), "q", 1), StartOutcome::Started);
    assert!(m.is_watching(Some("C:/p/q"), "elsewhere"));
    assert!(m.is_watching(None, "C:\\p/q"));
    assert_eq!(m.get_watching_projects(), vec!["C:/p/q".to_string()]);
    assert_eq!(m.key_for(None, "x\\y"), "x/y");
}

#[test]
fn debounce_default_is_three_minutes() {
    assert_eq!(effective_debounce_ms(None), 180000);
    assert_eq!(DEFAULT_DEBOUNCE_MS, 180000);
    assert_eq!(effective_debounce_ms(Some(50)), 50);
}

#[test]
fn auto_index_defaults_to_enabled() {
    assert!(initial_auto_index(None));
    assert!(!initial_auto_index(Some(false)));
    assert!(initial_auto_index(Some(true)));
}

#[test]
fn start_twice_registers_once() {
    let mut m = manager(true);
    assert_eq!(m.start_watching(Some("/p"), "/p", 1), StartOutcome::Started);
    assert_eq!(m.start_watching(Some("/p"), "/p", 2), StartOutcome::AlreadyWatching);
    assert_eq!(m.get_watching_projects(), vec!["/p".to_string()]);
    assert!(m.is_watching(Some("/p"), "/p"));
    assert_eq!(m.stop_watching(Some("/p"), "/p"), Some(1));
}

#[test]
fn stop_unwatched_is_not_an_error() {
    let mut m = manager(true);
    assert_eq!(m.stop_watching(None, "/nowhere"), None);
    assert!(m.get_watching_projects().is_empty());
    m.start_watching(None, "/a", 7);
    assert_eq!(m.stop_watching(None, "/b"), None);
    assert!(m.is_watching(None, "/a"));
    assert_eq!(m.stop_watching(None, "/a"), Some(7));
    assert!(!m.is_watching(None, "/a"));
}

#[test]
fn disabled_switch_registers_nothing() {
    let mut m = manager(false);
    assert!(!m.is_auto_index_enabled());
    assert_eq!(m.start_watching(None, "/p", 1), StartOutcome::Disabled);
    assert!(!m.is_watching(None, "/p"));
    assert!(m.get_watching_projects().is_empty());
}

#[test]
fn switch_does_not_touch_existing_watches() {
    let mut m = manager(true);
    m.start_watching(None, "/p", 1);
    m.set_auto_index_enabled(false);
    assert!(!m.is_auto_index_enabled());
    assert!(m.is_watching(None, "/p"));
    m.set_auto_index_enabled(true);
    assert!(m.is_auto_index_enabled());
}

#[test]
fn stop_all_empties_the_listing() {
    let mut m = manager(true);
    m.start_watching(None, "/a", 1);
    m.start_watching(None, "/b", 2);
    m.start_watching(None, "/c", 3);
    assert_eq!(m.stop_all(), 3);
    assert!(m.get_watching_projects().is_empty());
    assert_eq!(m.stop_all(), 0);
}

#[test]
fn listing_keeps_registration_order() {
    let mut m = manager(true);
    m.start_watching(None, "/b", 1);
    m.start_watching(None, "/a", 2);
    m.start_watching(None, "/c", 3);
    assert_eq!(m.stop_watching(None, "/a"), Some(2));
    assert_eq!(m.get_watching_projects(), vec!["/b".to_string(), "/c".to_string()]);
    assert_eq!(m.stop_watching(None, "/c"), Some(3));
    assert_eq!(m.stop_watching(None, "/b"), Some(1));
}
