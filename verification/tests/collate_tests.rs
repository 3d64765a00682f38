use scan_orchestrator::collate::{
    collate_groups, collate_referenced, found_message, sort_entries_by_key, sort_entries_by_path,
    ScanEntry, SortKey,
};
use scan_orchestrator::tools::Tool;

fn entry(path: &str) -> ScanEntry {
    ScanEntry { path: path.to_string(), size: 0, modified_date: 0, similarity: 0 }
}

fn entry_sized(path: &str, size: u64) -> ScanEntry {
    ScanEntry { path: path.to_string(), size, modified_date: 0, similarity: 0 }
}

fn entry_similar(path: &str, similarity: u32) -> ScanEntry {
    ScanEntry { path: path.to_string(), size: 0, modified_date: 0, similarity }
}

fn paths_of(v: &[ScanEntry]) -> Vec<String> {
    v.iter().map(|e| e.path.clone()).collect()
}

#[test]
fn path_sort_follows_traversal_order() {
    let v = vec![entry("/a/b"), entry("/b"), entry("/a"), entry("/a/b/c")];
    let sorted = sort_entries_by_path(v);
    assert_eq!(paths_of(&sorted), vec!["/a", "/a/b", "/a/b/c", "/b"]);
}

#[test]
fn path_sort_is_component_wise_not_raw() {
    // raw byte order would put "/a-b" first, since '-' precedes '/'
    let v = vec![entry("/a-b"), entry("/a/c")];
    let sorted = sort_entries_by_path(v);
    assert_eq!(paths_of(&sorted), vec!["/a/c", "/a-b"]);
}

#[test]
fn key_sorts() {
    let v = vec![entry_similar("x", 9), entry_similar("y", 1), entry_similar("z", 5)];
    let sorted = sort_entries_by_key(SortKey::Similarity, v);
    assert_eq!(paths_of(&sorted), vec!["y", "z", "x"]);

    let v = vec![entry_sized("x", 10), entry_sized("y", 30), entry_sized("z", 20)];
    let sorted = sort_entries_by_key(SortKey::SizeAscending, v);
    assert_eq!(paths_of(&sorted), vec!["x", "z", "y"]);

    let v = vec![entry_sized("x", 10), entry_sized("y", 30), entry_sized("z", 20)];
    let sorted = sort_entries_by_key(SortKey::SizeDescending, v);
    assert_eq!(paths_of(&sorted), vec!["y", "z", "x"]);
}

#[test]
fn plain_collation_carries_no_reference() {
    let groups = vec![
        vec![entry("/g/two"), entry("/g/one")],
        vec![entry("/h/only")],
    ];
    let collated = collate_groups(groups);
    assert_eq!(collated.len(), 2);
    for group in &collated {
        assert!(group.reference.is_none());
    }
    assert_eq!(paths_of(&collated[0].members), vec!["/g/one", "/g/two"]);
    assert_eq!(paths_of(&collated[1].members), vec!["/h/only"]);
}

#[test]
fn referenced_collation_excludes_the_reference() {
    let groups = vec![(
        entry("/ref/keep.txt"),
        vec![entry("/other/b"), entry("/ref/keep.txt"), entry("/other/a")],
    )];
    let collated = collate_referenced(groups);
    assert_eq!(collated.len(), 1);
    let group = &collated[0];
    let reference = group.reference.as_ref().expect("reference must be present");
    assert_eq!(reference.path, "/ref/keep.txt");
    assert_eq!(paths_of(&group.members), vec!["/other/a", "/other/b"]);
    for member in &group.members {
        assert_ne!(member.path, reference.path);
    }
}

#[test]
fn summary_message_counts_groups() {
    let message = found_message(Tool::EmptyFolders, 2, "engine says hello\n");
    assert_eq!(message, "Found 2 empty folders\nengine says hello\n");
    let message = found_message(Tool::DuplicateFiles, 0, "");
    assert_eq!(message, "Found 0 similar duplicates files\n");
}
