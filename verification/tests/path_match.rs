use knowledge_index::path_match::{entries_at_or_below, path_matches_or_descends, source_within_root};

#[test]
fn a_path_matches_itself_and_its_descendants() {
    assert!(path_matches_or_descends("C:/root/nested", "C:/root/nested", false));
    assert!(path_matches_or_descends("C:/root/nested/file.txt", "C:/root/nested", false));
    assert!(path_matches_or_descends("root/a/b/c", "root/a", false));
}

#[test]
fn only_whole_components_match() {
    assert!(!path_matches_or_descends("root/ab", "root/a", false));
    assert!(!path_matches_or_descends("root", "root/a", false));
}

#[test]
fn windows_rules_ignore_case_and_separators() {
    assert!(path_matches_or_descends("C:\\Root\\Nested\\f.txt", "c:\\root\\nested\\", true));
    assert!(path_matches_or_descends("C:/Root/Nested/f.txt", "c:/root/nested", true));
    assert!(path_matches_or_descends("C:\\ROOT", "c:\\root\\", true));
    assert!(!path_matches_or_descends("C:\\Root\\Nestedx", "c:\\root\\nested", true));
    assert!(!path_matches_or_descends("C:\\Root\\Nested\\f.txt", "c:\\root\\nested", false));
}

#[test]
fn matching_entries_keep_their_order() {
    let rows = vec![
        (1, "C:/root/nested/a.txt".to_string()),
        (2, "C:/root/other.txt".to_string()),
        (3, "C:/root/nested".to_string()),
        (4, "C:/root/nestedx".to_string()),
    ];
    assert_eq!(entries_at_or_below(&rows, "C:/root/nested", false), vec![1, 3]);
}

#[test]
fn sources_must_lie_strictly_inside_the_root() {
    assert!(source_within_root("/data/root", "/data/root/notes/a.md"));
    assert!(source_within_root("/data/root", "/data/root/a.md"));
    assert!(!source_within_root("/data/root", "/data/root"));
    assert!(!source_within_root("/data/root", "/data/root/"));
    assert!(!source_within_root("/data/root", "/data/rootless/a.md"));
    assert!(!source_within_root("/data/root", "/data/other/a.md"));
}
