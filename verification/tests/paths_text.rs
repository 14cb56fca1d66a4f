use file_explorer::host::path_from_components;
use file_explorer::path::FsPath;
use file_explorer::text::{is_blank, str_contains};

fn segs(parts: &[&str]) -> Vec<String> {
    parts.iter().map(|s| s.to_string()).collect()
}

fn p(parts: &[&str]) -> FsPath {
    FsPath::new(segs(parts))
}

#[test]
fn contains_finds_substrings_case_sensitively() {
    assert!(str_contains("report_a.csv", "a"));
    assert!(str_contains("report_a.csv", "report"));
    assert!(str_contains("report_a.csv", ".csv"));
    assert!(str_contains("report_a.csv", "report_a.csv"));
    assert!(!str_contains("report_a.csv", "A"));
    assert!(!str_contains("a.txt", "A"));
    assert!(!str_contains("report_a.csv", "z"));
    assert!(!str_contains("report_a.csv", "csvx"));
}

#[test]
fn contains_edge_cases() {
    assert!(str_contains("abc", ""));
    assert!(str_contains("", ""));
    assert!(!str_contains("", "a"));
    assert!(!str_contains("ab", "abc"));
    assert!(str_contains("aaab", "aab"));
}

#[test]
fn blank_recognises_whitespace_only_strings() {
    assert!(is_blank(""));
    assert!(is_blank("   "));
    assert!(is_blank(" \t\r\n"));
    assert!(!is_blank(" a "));
    assert!(!is_blank("query"));
}

#[test]
fn blank_covers_all_unicode_whitespace() {
    // every character str::trim would remove counts as blank
    assert!(is_blank("\u{000B}"));
    assert!(is_blank("\u{000C}"));
    assert!(is_blank("\u{0085}"));
    assert!(is_blank("\u{00A0}"));
    assert!(is_blank("\u{1680}"));
    assert!(is_blank("\u{2000}\u{2001}\u{2002}\u{2003}\u{2004}"));
    assert!(is_blank("\u{2005}\u{2006}\u{2007}\u{2008}\u{2009}\u{200A}"));
    assert!(is_blank("\u{2028}\u{2029}\u{202F}\u{205F}\u{3000}"));
    for c in " \t\n\u{000B}\u{000C}\r\u{0085}\u{00A0}\u{1680}\u{2000}\u{200A}\u{2028}\u{2029}\u{202F}\u{205F}\u{3000}".chars() {
        assert!(c.is_whitespace());
        assert!(is_blank(&c.to_string()));
    }
    // a zero-width space is not whitespace under trim, and not blank here
    assert!(!is_blank("\u{200B}"));
    assert!(!is_blank("\u{000B}x\u{000B}"));
}

#[test]
fn parent_drops_the_last_segment_and_root_has_none() {
    let path = p(&["tmp", "x", "sub"]);
    let parent = path.parent().expect("a deep path has a parent");
    assert_eq!(parent.segments, segs(&["tmp", "x"]));
    assert!(FsPath::root().parent().is_none());
    assert!(FsPath::root().is_root());
    assert!(!path.is_root());
}

#[test]
fn child_extends_and_parent_undoes_it() {
    let base = p(&["tmp"]);
    let deeper = base.child("x".to_string());
    assert_eq!(deeper.segments, segs(&["tmp", "x"]));
    let back = deeper.parent().unwrap();
    assert!(back.same_path(&base));
}

#[test]
fn path_relations() {
    let root = p(&["tmp", "x"]);
    let child = p(&["tmp", "x", "sub"]);
    let grandchild = p(&["tmp", "x", "sub", "report_a.csv"]);
    let elsewhere = p(&["tmp", "y", "sub"]);

    assert!(child.is_child_of(&root));
    assert!(!grandchild.is_child_of(&root));
    assert!(!root.is_child_of(&root));
    assert!(!elsewhere.is_child_of(&root));

    assert!(child.in_subtree_of(&root));
    assert!(grandchild.in_subtree_of(&root));
    assert!(!root.in_subtree_of(&root));
    assert!(!elsewhere.in_subtree_of(&root));

    assert!(root.same_path(&p(&["tmp", "x"])));
    assert!(!root.same_path(&child));

    assert_eq!(grandchild.name().unwrap().as_str(), "report_a.csv");
    assert!(FsPath::root().name().is_none());

    assert_eq!(grandchild.prefix(2).segments, segs(&["tmp", "x"]));
    assert_eq!(grandchild.depth(), 4);
}

#[test]
fn components_drop_root_markers() {
    assert_eq!(path_from_components(segs(&["/", "home", "me"])).segments, segs(&["home", "me"]));
    assert_eq!(path_from_components(segs(&["home", "me"])).segments, segs(&["home", "me"]));
    assert!(path_from_components(segs(&["/"])).is_root());
    assert!(path_from_components(Vec::new()).is_root());
    // a drive-prefixed home: the root marker after the prefix goes too
    assert_eq!(
        path_from_components(segs(&["C:", "\\", "Users", "me"])).segments,
        segs(&["C:", "Users", "me"])
    );
    // a marker is exactly one separator; longer segments stay
    assert_eq!(path_from_components(segs(&["//", "a"])).segments, segs(&["//", "a"]));
}
