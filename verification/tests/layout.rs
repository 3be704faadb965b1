use rerman::layout::{compose, decompose, normalize_clone_path, NotUnderRoot, RepoTableItem};
use rerman::locator::GitUrl;

#[test]
fn composes_all_four_fields() {
    let p = compose("/srv/repos", "git", "github.com", "alice", "proj");
    assert_eq!(p, "/srv/repos/git/github.com/alice/proj");
}

#[test]
fn empty_account_collapses() {
    let p = compose("/srv/repos", "git", "github.com", "", "foo/bar");
    assert_eq!(p, "/srv/repos/git/github.com/foo/bar");
}

#[test]
fn decomposes_a_composed_path() {
    let c = compose("/srv/repos", "git", "github.com", "", "foo/bar");
    let item = decompose("/srv/repos", &c).unwrap();
    assert_eq!(
        item,
        RepoTableItem {
            path: "foo/bar".to_string(),
            ty: "git".to_string(),
            hostname: "github.com".to_string(),
        }
    );
}

#[test]
fn decomposes_with_account_into_relative_path() {
    let c = compose("/srv/repos", "git", "github.com", "alice", "proj");
    let item = decompose("/srv/repos", &c).unwrap();
    assert_eq!(item.ty, "git");
    assert_eq!(item.hostname, "github.com");
    assert_eq!(item.path, "alice/proj");
}

#[test]
fn rejects_path_outside_root() {
    assert_eq!(decompose("/srv/repos", "/elsewhere/git/h/p"), Err(NotUnderRoot));
    assert_eq!(decompose("/srv/repos", "/srv/repos"), Err(NotUnderRoot));
    assert_eq!(decompose("/srv/repos", "/srv/repositories/git/h/p"), Err(NotUnderRoot));
}

#[test]
fn normalizes_shorthand_clone_path() {
    let g = GitUrl::parse("git@github.com:foo/bar.git").unwrap();
    assert_eq!(normalize_clone_path(&g), "bar");
}

#[test]
fn normalizes_url_clone_path() {
    let g = GitUrl::parse("https://github.com/foo/bar.git").unwrap();
    assert_eq!(normalize_clone_path(&g), "foo/bar");
}

#[test]
fn normalize_strips_at_most_one_of_each() {
    let g = GitUrl::File { path: "//a/b.git.git".to_string() };
    assert_eq!(normalize_clone_path(&g), "/a/b.git");
}

#[test]
fn clone_destination_for_shorthand() {
    let g = GitUrl::parse("git@github.com:foo/bar.git").unwrap();
    let dest = compose(
        "/srv/repos",
        "git",
        g.host(),
        &g.username(),
        &normalize_clone_path(&g),
    );
    assert_eq!(dest, "/srv/repos/git/github.com/foo/bar");
}

#[test]
fn clone_destination_for_https_url() {
    let g = GitUrl::parse("https://github.com/foo/bar.git").unwrap();
    let dest = compose(
        "/srv/repos",
        "git",
        g.host(),
        &g.username(),
        &normalize_clone_path(&g),
    );
    assert_eq!(dest, "/srv/repos/git/github.com/foo/bar");
}

#[test]
fn normalize_keeps_plain_paths() {
    let g = GitUrl::File { path: "a/b".to_string() };
    assert_eq!(normalize_clone_path(&g), "a/b");
}
