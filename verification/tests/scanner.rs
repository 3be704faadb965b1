use rerman::scan::{scan, FsNode, RepositoryEntry, ScanError};

fn dir(name: &str, entries: Vec<FsNode>) -> FsNode {
    FsNode::Dir { name: name.to_string(), entries }
}

fn file(name: &str) -> FsNode {
    FsNode::Leaf { name: name.to_string() }
}

fn unreadable(name: &str, cause: &str) -> FsNode {
    FsNode::UnreadableDir { name: name.to_string(), cause: cause.to_string() }
}

fn paths(entries: Vec<RepositoryEntry>) -> Vec<Vec<String>> {
    entries.into_iter().map(|e| e.relative_path).collect()
}

#[test]
fn nested_repository_is_reported_once() {
    let tree = dir(
        "parent",
        vec![dir(
            "A",
            vec![
                dir(".git", vec![]),
                dir("sub", vec![dir(".git", vec![])]),
            ],
        )],
    );
    let found = scan(&tree).unwrap();
    assert_eq!(paths(found), vec![vec!["A".to_string()]]);
}

#[test]
fn empty_directory_yields_nothing() {
    let tree = dir("empty", vec![]);
    let found = scan(&tree).unwrap();
    assert!(found.is_empty());
}

#[test]
fn unreadable_child_aborts_the_scan() {
    let tree = dir(
        "host",
        vec![
            dir("ok", vec![dir(".git", vec![])]),
            unreadable("bad", "permission denied"),
        ],
    );
    let err = scan(&tree).unwrap_err();
    let ScanError::Io { path, cause } = err;
    assert_eq!(path, vec!["bad".to_string()]);
    assert_eq!(cause, "permission denied");
}

#[test]
fn marker_directory_stops_recursion() {
    // The yielded repository's own substructure is never entered, so an
    // unreadable directory inside it cannot abort the scan.
    let tree = dir(
        "parent",
        vec![dir(
            "repo",
            vec![dir(".git", vec![]), unreadable("locked", "permission denied")],
        )],
    );
    let found = scan(&tree).unwrap();
    assert_eq!(paths(found), vec![vec!["repo".to_string()]]);
}

#[test]
fn non_directories_are_skipped() {
    let tree = dir(
        "parent",
        vec![
            file("README"),
            file(".git"),
            dir("a", vec![dir(".git", vec![]), file("x")]),
            dir("b", vec![file("y")]),
        ],
    );
    let found = scan(&tree).unwrap();
    assert_eq!(paths(found), vec![vec!["a".to_string()]]);
}

#[test]
fn repositories_come_in_depth_first_listing_order() {
    let tree = dir(
        "host",
        vec![
            dir("group", vec![
                dir("one", vec![dir(".git", vec![])]),
                dir("two", vec![dir(".git", vec![])]),
            ]),
            dir("solo", vec![dir(".git", vec![])]),
        ],
    );
    let found = scan(&tree).unwrap();
    assert_eq!(
        paths(found),
        vec![
            vec!["group".to_string(), "one".to_string()],
            vec!["group".to_string(), "two".to_string()],
            vec!["solo".to_string()],
        ]
    );
}

#[test]
fn scan_root_with_marker_yields_empty_relative_path() {
    let tree = dir("repo", vec![dir(".git", vec![])]);
    let found = scan(&tree).unwrap();
    assert_eq!(paths(found), vec![Vec::<String>::new()]);
}

#[test]
fn unreadable_marker_still_marks_a_repository() {
    let tree = dir("parent", vec![dir("a", vec![unreadable(".git", "permission denied")])]);
    let found = scan(&tree).unwrap();
    assert_eq!(paths(found), vec![vec!["a".to_string()]]);
}
