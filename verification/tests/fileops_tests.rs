use scan_orchestrator::delete_files::{
    delete_action, delete_files, DeleteAction, DeleteEvent, Options as DeleteOptions,
};
use scan_orchestrator::move_files::{
    collision_blocked, move_files, move_plan, MoveEvent, Options as MoveOptions,
};
use scan_orchestrator::outcome::{collect_outcome, merge_outcomes, FileOpOutcome, ItemResult};
use scan_orchestrator::rename_ext::{
    rename_ext, rename_plan, Item, Options as RenameOptions, RenameEvent,
};

fn strings(v: &[&str]) -> Vec<String> {
    v.iter().map(|s| s.to_string()).collect()
}

#[test]
fn delete_reports_each_path_once() {
    let options = DeleteOptions {
        paths: strings(&["path1", "path2", "path3"]),
        move_deleted_files_to_trash: false,
        is_empty_folders_tool: false,
    };
    let events = vec![DeleteEvent::Done, DeleteEvent::Missing, DeleteEvent::Done];
    let outcome = delete_files(&options, &events);
    assert_eq!(outcome.success_paths, strings(&["path1", "path3"]));
    assert_eq!(outcome.errors, strings(&["`path2` not found"]));
    assert_eq!(outcome.success_paths.len() + outcome.errors.len(), 3);
}

#[test]
fn delete_failure_carries_reason() {
    let options = DeleteOptions {
        paths: strings(&["/a"]),
        move_deleted_files_to_trash: true,
        is_empty_folders_tool: false,
    };
    let events = vec![DeleteEvent::Failed("denied".to_string())];
    let outcome = delete_files(&options, &events);
    assert!(outcome.success_paths.is_empty());
    assert_eq!(outcome.errors, strings(&["`/a` Failed, reason: denied"]));
}

#[test]
fn delete_action_policy() {
    assert_eq!(
        delete_action(true, true),
        DeleteAction::RemoveEmptyFolderTree { to_trash: true }
    );
    assert_eq!(
        delete_action(false, true),
        DeleteAction::RemoveEmptyFolderTree { to_trash: false }
    );
    assert_eq!(delete_action(true, false), DeleteAction::MoveToTrash);
    assert_eq!(delete_action(false, false), DeleteAction::RemoveFile);
}

#[test]
fn move_plan_preserves_structure() {
    let plan = move_plan("/a/b/c.txt", "/dest", true).unwrap();
    assert_eq!(plan.dest_dir, "/dest/a/b");
    assert_eq!(plan.dest_path, "/dest/a/b/c.txt");
}

#[test]
fn move_plan_flat() {
    let plan = move_plan("/a/b/c.txt", "/dest", false).unwrap();
    assert_eq!(plan.dest_dir, "/dest");
    assert_eq!(plan.dest_path, "/dest/c.txt");
}

#[test]
fn move_plan_without_file_name_fails() {
    let err = move_plan("/", "/dest", false).unwrap_err();
    assert_eq!(err, "Failed to get file name of `/`");
}

#[test]
fn move_outcome_collision_and_failure() {
    let options = MoveOptions {
        paths: strings(&["/a/one.txt", "/a/two.txt", "/a/three.txt"]),
        destination: "/dest".to_string(),
        copy_mode: false,
        preserve_structure: false,
        override_mode: false,
    };
    let events = vec![
        MoveEvent::Done,
        MoveEvent::DestinationExists,
        MoveEvent::Failed("disk full".to_string()),
    ];
    let outcome = move_files(&options, &events);
    assert_eq!(outcome.success_paths, strings(&["/a/one.txt"]));
    assert_eq!(
        outcome.errors,
        strings(&[
            "`/dest/two.txt` already exists",
            "`/a/three.txt` Failed, reason: disk full",
        ])
    );
}

#[test]
fn move_outcome_dir_create_failure() {
    let options = MoveOptions {
        paths: strings(&["/a/one.txt"]),
        destination: "/dest".to_string(),
        copy_mode: true,
        preserve_structure: true,
        override_mode: true,
    };
    let events = vec![MoveEvent::DirCreateFailed("no permission".to_string())];
    let outcome = move_files(&options, &events);
    assert!(outcome.success_paths.is_empty());
    assert_eq!(
        outcome.errors,
        strings(&["`/a/one.txt` Failed, reason: no permission"])
    );
}

#[test]
fn collision_policy() {
    assert!(collision_blocked(true, false));
    assert!(!collision_blocked(true, true));
    assert!(!collision_blocked(false, false));
    assert!(!collision_blocked(false, true));
}

#[test]
fn rename_plan_replaces_extension() {
    assert_eq!(
        rename_plan("a/file.txt", "md"),
        ("a/file.md".to_string(), true)
    );
    assert_eq!(
        rename_plan("a/file.md", "md"),
        ("a/file.md".to_string(), false)
    );
    assert_eq!(rename_plan("a/file", "md"), ("a/file.md".to_string(), true));
    assert_eq!(
        rename_plan(".gitignore", "txt"),
        (".gitignore.txt".to_string(), true)
    );
    assert_eq!(rename_plan("a/file.txt", ""), ("a/file".to_string(), true));
    // a trailing separator is dropped: the last segment is renamed
    assert_eq!(
        rename_plan("a/file.txt/", "md"),
        ("a/file.md".to_string(), true)
    );
}

#[test]
fn rename_twice_is_trivial_success() {
    let (renamed, changed) = rename_plan("dir/song.mp3", "flac");
    assert_eq!(renamed, "dir/song.flac");
    assert!(changed);
    let (again, changed_again) = rename_plan(&renamed, "flac");
    assert_eq!(again, renamed);
    assert!(!changed_again);
    // the unchanged item succeeds whatever the filesystem would have said
    let options = RenameOptions {
        items: vec![Item { path: renamed.clone(), ext: "flac".to_string() }],
    };
    let events = vec![RenameEvent::Failed("never attempted".to_string())];
    let outcome = rename_ext(&options, &events);
    assert_eq!(outcome.success_paths, vec![renamed]);
    assert!(outcome.errors.is_empty());
}

#[test]
fn rename_outcome_mixed() {
    let options = RenameOptions {
        items: vec![
            Item { path: "a.txt".to_string(), ext: "md".to_string() },
            Item { path: "b.txt".to_string(), ext: "md".to_string() },
        ],
    };
    let events = vec![
        RenameEvent::Done,
        RenameEvent::Failed("read-only".to_string()),
    ];
    let outcome = rename_ext(&options, &events);
    assert_eq!(outcome.success_paths, strings(&["a.txt"]));
    assert_eq!(outcome.errors, strings(&["`b.txt` Failed, reason: read-only"]));
}

#[test]
fn outcome_collection_and_merge() {
    let results = vec![
        ItemResult::Success("a".to_string()),
        ItemResult::Error("bad b".to_string()),
        ItemResult::Success("c".to_string()),
    ];
    let outcome = collect_outcome(results);
    assert_eq!(outcome.success_paths, strings(&["a", "c"]));
    assert_eq!(outcome.errors, strings(&["bad b"]));

    let left = FileOpOutcome { success_paths: strings(&["a"]), errors: strings(&["e1"]) };
    let right = FileOpOutcome { success_paths: strings(&["b", "c"]), errors: vec![] };
    let merged = merge_outcomes(left, right);
    assert_eq!(merged.success_paths, strings(&["a", "b", "c"]));
    assert_eq!(merged.errors, strings(&["e1"]));
    assert_eq!(merged.success_paths.len() + merged.errors.len(), 4);
}
