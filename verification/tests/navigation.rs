use file_explorer::explorer::{FileExplorer, Mode, NavError};
use file_explorer::path::FsPath;
use file_explorer::tree::{Entry, EntryKind, FsTree};

fn segs(parts: &[&str]) -> Vec<String> {
    parts.iter().map(|s| s.to_string()).collect()
}

fn p(parts: &[&str]) -> FsPath {
    FsPath::new(segs(parts))
}

/// The sample tree: /tmp/x holds a.txt, a readable subdirectory sub with
/// report_a.csv, and an unreadable directory locked hiding hidden_a.txt.
fn sample_tree() -> FsTree {
    let mut t = FsTree::new();
    t.add_parts(p(&["tmp"]), EntryKind::Directory, true);
    t.add_parts(p(&["tmp", "x"]), EntryKind::Directory, true);
    t.add_parts(p(&["tmp", "x", "a.txt"]), EntryKind::File, true);
    t.add_parts(p(&["tmp", "x", "sub"]), EntryKind::Directory, true);
    t.add_parts(p(&["tmp", "x", "sub", "report_a.csv"]), EntryKind::File, true);
    t.add_parts(p(&["tmp", "x", "locked"]), EntryKind::Directory, false);
    t.add_parts(p(&["tmp", "x", "locked", "hidden_a.txt"]), EntryKind::File, true);
    t
}

fn paths_of(entries: &[Entry]) -> Vec<Vec<String>> {
    entries.iter().map(|e| e.path.segments.clone()).collect()
}

#[test]
fn new_loads_initial_listing() {
    let t = sample_tree();
    let ex = FileExplorer::new(p(&["tmp", "x"]), &t);
    assert_eq!(ex.current_path.segments, segs(&["tmp", "x"]));
    assert_eq!(ex.mode, Mode::Browsing);
    assert!(ex.search_query.is_empty());
    assert!(ex.search_results.is_empty());
    let mut listed = paths_of(&ex.items);
    listed.sort();
    let mut expected = vec![
        segs(&["tmp", "x", "a.txt"]),
        segs(&["tmp", "x", "locked"]),
        segs(&["tmp", "x", "sub"]),
    ];
    expected.sort();
    assert_eq!(listed, expected);
}

#[test]
fn enter_directory_reloads_listing_and_clears_results() {
    let t = sample_tree();
    let mut ex = FileExplorer::new(p(&["tmp", "x"]), &t);
    ex.set_search_query("a".to_string());
    ex.perform_search(&t);
    assert_eq!(ex.mode, Mode::Searching);

    let r = ex.enter(&p(&["tmp", "x", "sub"]), &t);
    assert_eq!(r, Ok(()));
    assert_eq!(ex.current_path.segments, segs(&["tmp", "x", "sub"]));
    assert_eq!(ex.mode, Mode::Browsing);
    assert!(ex.search_results.is_empty());
    assert_eq!(paths_of(&ex.items), vec![segs(&["tmp", "x", "sub", "report_a.csv"])]);
}

#[test]
fn enter_unreadable_directory_gives_empty_listing() {
    let t = sample_tree();
    let mut ex = FileExplorer::new(p(&["tmp", "x"]), &t);
    let r = ex.enter(&p(&["tmp", "x", "locked"]), &t);
    assert_eq!(r, Ok(()));
    assert_eq!(ex.current_path.segments, segs(&["tmp", "x", "locked"]));
    assert!(ex.items.is_empty());
}

#[test]
fn enter_on_a_file_leaves_state_untouched() {
    let t = sample_tree();
    let mut ex = FileExplorer::new(p(&["tmp", "x"]), &t);
    let items_before = paths_of(&ex.items);
    let r = ex.enter(&p(&["tmp", "x", "a.txt"]), &t);
    assert_eq!(r, Err(NavError::NotADirectory));
    assert_eq!(ex.current_path.segments, segs(&["tmp", "x"]));
    assert_eq!(paths_of(&ex.items), items_before);
    assert_eq!(ex.mode, Mode::Browsing);
    assert!(ex.search_results.is_empty());
}

#[test]
fn enter_on_a_missing_path_leaves_state_untouched() {
    let t = sample_tree();
    let mut ex = FileExplorer::new(p(&["tmp", "x"]), &t);
    let r = ex.enter(&p(&["tmp", "x", "nowhere"]), &t);
    assert_eq!(r, Err(NavError::NotADirectory));
    assert_eq!(ex.current_path.segments, segs(&["tmp", "x"]));
}

#[test]
fn up_moves_to_parent_and_reloads() {
    let t = sample_tree();
    let mut ex = FileExplorer::new(p(&["tmp", "x", "sub"]), &t);
    let moved = ex.up(&t);
    assert!(moved);
    assert_eq!(ex.current_path.segments, segs(&["tmp", "x"]));
    assert_eq!(ex.mode, Mode::Browsing);
    assert_eq!(ex.items.len(), 3);
}

#[test]
fn up_from_root_changes_nothing() {
    let t = sample_tree();
    let mut ex = FileExplorer::new(FsPath::root(), &t);
    let moved = ex.up(&t);
    assert!(!moved);
    assert_eq!(ex.current_path.segments, Vec::<String>::new());
    assert_eq!(ex.mode, Mode::Browsing);
}

#[test]
fn refresh_twice_yields_identical_listing() {
    let t = sample_tree();
    let mut ex = FileExplorer::new(p(&["tmp", "x"]), &t);
    ex.refresh(&t);
    let first = paths_of(&ex.items);
    ex.refresh(&t);
    let second = paths_of(&ex.items);
    assert_eq!(first, second);
}

#[test]
fn load_items_reloads_without_changing_path() {
    let t = sample_tree();
    let mut ex = FileExplorer::new(p(&["tmp", "x"]), &t);
    ex.load_items(&t);
    assert_eq!(ex.current_path.segments, segs(&["tmp", "x"]));
    assert_eq!(ex.items.len(), 3);
}

#[test]
fn perform_search_finds_files_and_switches_mode() {
    let t = sample_tree();
    let mut ex = FileExplorer::new(p(&["tmp", "x"]), &t);
    ex.set_search_query("a".to_string());
    ex.perform_search(&t);
    assert_eq!(ex.mode, Mode::Searching);
    assert_eq!(
        paths_of(&ex.search_results),
        vec![segs(&["tmp", "x", "a.txt"]), segs(&["tmp", "x", "sub", "report_a.csv"])]
    );
}

#[test]
fn blank_query_forces_browsing_and_clears_results() {
    let t = sample_tree();
    let mut ex = FileExplorer::new(p(&["tmp", "x"]), &t);
    ex.set_search_query("a".to_string());
    ex.perform_search(&t);
    assert_eq!(ex.mode, Mode::Searching);
    assert!(!ex.search_results.is_empty());

    ex.set_search_query("   ".to_string());
    assert_eq!(ex.mode, Mode::Browsing);
    assert!(ex.search_results.is_empty());

    ex.perform_search(&t);
    assert_eq!(ex.mode, Mode::Browsing);
    assert!(ex.search_results.is_empty());
}

#[test]
fn unicode_whitespace_query_counts_as_blank() {
    let t = sample_tree();
    let mut ex = FileExplorer::new(p(&["tmp", "x"]), &t);
    // a lone vertical tab is whitespace-only: no search, browsing stays
    ex.set_search_query("\u{000B}".to_string());
    assert_eq!(ex.mode, Mode::Browsing);
    ex.perform_search(&t);
    assert_eq!(ex.mode, Mode::Browsing);
    assert!(ex.search_results.is_empty());

    ex.set_search_query("\u{00A0}\u{2028}".to_string());
    ex.perform_search(&t);
    assert_eq!(ex.mode, Mode::Browsing);
    assert!(ex.search_results.is_empty());
}

#[test]
fn open_entry_accepts_files_and_refuses_directories() {
    let t = sample_tree();
    let ex = FileExplorer::new(p(&["tmp", "x"]), &t);
    let file = Entry { path: p(&["tmp", "x", "a.txt"]), kind: EntryKind::File, readable: true };
    let dir = Entry { path: p(&["tmp", "x", "sub"]), kind: EntryKind::Directory, readable: true };
    match ex.open_entry(&file) {
        Ok(path) => assert_eq!(path.segments, segs(&["tmp", "x", "a.txt"])),
        Err(_) => panic!("opening a file must succeed"),
    }
    match ex.open_entry(&dir) {
        Ok(_) => panic!("opening a directory must be refused"),
        Err(e) => assert_eq!(e, NavError::NotAFile),
    }
}
