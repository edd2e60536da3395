use gsr::walk::{on_event, repo_roots, WalkAction, WalkEntry, WalkEvent};

fn entry(file_name: &str, parent: Option<&str>, is_dir: bool) -> WalkEvent {
    WalkEvent::Entry(WalkEntry {
        file_name: file_name.to_string(),
        parent: parent.map(|path| path.to_string()),
        is_dir,
    })
}

fn failure(depth: usize, message: &str) -> WalkEvent {
    WalkEvent::Failure { depth, message: message.to_string() }
}

#[test]
fn marker_directory_yields_its_parent() {
    assert_eq!(
        on_event(&entry(".git", Some("work/repoA"), true)),
        WalkAction::Yield("work/repoA".to_string())
    );
}

#[test]
fn marker_directory_at_the_top_yields_the_empty_parent() {
    assert_eq!(on_event(&entry(".git", Some(""), true)), WalkAction::Yield(String::new()));
}

#[test]
fn marker_name_on_a_file_is_no_marker() {
    assert_eq!(on_event(&entry(".git", Some("work/sub"), false)), WalkAction::Descend);
}

#[test]
fn marker_without_parent_yields_nothing() {
    assert_eq!(on_event(&entry(".git", None, true)), WalkAction::Descend);
}

#[test]
fn other_entries_are_walked_on() {
    assert_eq!(on_event(&entry("src", Some("work/repoA"), true)), WalkAction::Descend);
    assert_eq!(on_event(&entry("main.rs", Some("work/repoA/src"), false)), WalkAction::Descend);
    assert_eq!(on_event(&entry("", Some("work"), true)), WalkAction::Descend);
}

#[test]
fn near_misses_of_the_marker_name() {
    for name in [".gitignore", ".gi", "git", ".GIT", ".git ", " .git", ".git/", "x.git", ".github"] {
        assert_eq!(on_event(&entry(name, Some("work"), true)), WalkAction::Descend);
    }
}

#[test]
fn failure_at_the_root_ends_the_run() {
    assert_eq!(
        on_event(&failure(0, "IO error for operation on nowhere: No such file or directory")),
        WalkAction::Abort("IO error for operation on nowhere: No such file or directory".to_string())
    );
}

#[test]
fn failure_below_the_root_is_reported() {
    assert_eq!(
        on_event(&failure(1, "permission denied")),
        WalkAction::Report("permission denied".to_string())
    );
    assert_eq!(on_event(&failure(7, "gone")), WalkAction::Report("gone".to_string()));
    assert_eq!(on_event(&failure(usize::MAX, "")), WalkAction::Report(String::new()));
}

#[test]
fn no_markers_no_roots() {
    let events = vec![
        entry("work", Some(""), true),
        entry("notes", Some("work"), true),
        entry("a.txt", Some("work/notes"), false),
    ];
    assert_eq!(repo_roots(&events), Vec::<String>::new());
    assert_eq!(repo_roots(&Vec::new()), Vec::<String>::new());
}

#[test]
fn one_marker_one_root() {
    let events = vec![
        entry("work", Some(""), true),
        entry("repoA", Some("work"), true),
        entry(".git", Some("work/repoA"), true),
        entry("src", Some("work/repoA"), true),
    ];
    assert_eq!(repo_roots(&events), vec!["work/repoA".to_string()]);
}

#[test]
fn many_markers_one_root_each_in_order() {
    let events = vec![
        entry("work", Some(""), true),
        entry("repoB", Some("work"), true),
        entry(".git", Some("work/repoB"), true),
        failure(2, "work/locked: permission denied"),
        entry("plain", Some("work"), true),
        entry(".git", Some("work/plain"), false),
        entry("repoA", Some("work"), true),
        entry("vendor", Some("work/repoA"), true),
        entry("dep", Some("work/repoA/vendor"), true),
        entry(".git", Some("work/repoA/vendor/dep"), true),
        entry(".git", Some("work/repoA"), true),
    ];
    assert_eq!(
        repo_roots(&events),
        vec!["work/repoB".to_string(), "work/repoA/vendor/dep".to_string(), "work/repoA".to_string()]
    );
}

#[test]
fn five_hundred_markers_five_hundred_roots() {
    let mut events = Vec::new();
    let mut expected = Vec::new();
    for number in 0..500 {
        let root = format!("work/repo{}", number);
        events.push(entry(&format!("repo{}", number), Some("work"), true));
        events.push(entry(".git", Some(&root), true));
        events.push(entry("README", Some(&root), false));
        expected.push(root);
    }
    assert_eq!(repo_roots(&events), expected);
}
