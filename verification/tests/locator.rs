use rerman::locator::{GitUrl, InvalidLocator};

#[test]
fn parses_https_url() {
    let g = GitUrl::parse("https://github.com/foo/bar.git").unwrap();
    assert_eq!(
        g,
        GitUrl::Http {
            https: true,
            host: "github.com".to_string(),
            port: None,
            path: "/foo/bar.git".to_string(),
        }
    );
}

#[test]
fn parses_http_url_insecure() {
    let g = GitUrl::parse("http://example.org/repo").unwrap();
    assert_eq!(
        g,
        GitUrl::Http {
            https: false,
            host: "example.org".to_string(),
            port: None,
            path: "/repo".to_string(),
        }
    );
}

#[test]
fn parses_ssh_url_with_port() {
    let g = GitUrl::parse("ssh://user@host:2222/a/b").unwrap();
    assert_eq!(
        g,
        GitUrl::Ssh {
            user: Some("user".to_string()),
            host: "host".to_string(),
            port: Some(2222),
            username: None,
            path: "/a/b".to_string(),
        }
    );
}

#[test]
fn parses_ssh_url_without_user() {
    let g = GitUrl::parse("ssh://host/a/b").unwrap();
    assert_eq!(
        g,
        GitUrl::Ssh {
            user: None,
            host: "host".to_string(),
            port: None,
            username: None,
            path: "/a/b".to_string(),
        }
    );
}

#[test]
fn parses_git_url() {
    let g = GitUrl::parse("git://example.com/project").unwrap();
    assert_eq!(
        g,
        GitUrl::Git {
            host: "example.com".to_string(),
            port: None,
            username: None,
            path: "/project".to_string(),
        }
    );
}

#[test]
fn parses_ftp_and_ftps_urls() {
    let g = GitUrl::parse("ftp://example.com/pub/repo").unwrap();
    assert_eq!(
        g,
        GitUrl::Ftp {
            ftps: false,
            host: "example.com".to_string(),
            port: None,
            path: "/pub/repo".to_string(),
        }
    );
    let g = GitUrl::parse("ftps://example.com:2121/pub/repo").unwrap();
    assert_eq!(
        g,
        GitUrl::Ftp {
            ftps: true,
            host: "example.com".to_string(),
            port: Some(2121),
            path: "/pub/repo".to_string(),
        }
    );
}

#[test]
fn parses_file_url() {
    let g = GitUrl::parse("file:///tmp/repo").unwrap();
    assert_eq!(g, GitUrl::File { path: "/tmp/repo".to_string() });
}

#[test]
fn parses_shorthand_with_user_and_account() {
    let g = GitUrl::parse("git@github.com:foo/bar.git").unwrap();
    assert_eq!(
        g,
        GitUrl::Ssh {
            user: Some("git".to_string()),
            host: "github.com".to_string(),
            port: None,
            username: Some("foo".to_string()),
            path: "bar.git".to_string(),
        }
    );
}

#[test]
fn parses_shorthand_without_user() {
    // The bare-host form needs a host that the URL grammar rejects as a
    // scheme; an underscore does that.
    let g = GitUrl::parse("my_host:/srv/repo").unwrap();
    assert_eq!(
        g,
        GitUrl::Ssh {
            user: None,
            host: "my_host".to_string(),
            port: None,
            username: None,
            path: "srv/repo".to_string(),
        }
    );
}

#[test]
fn parses_local_path_verbatim() {
    let g = GitUrl::parse("/local/disk/path").unwrap();
    assert_eq!(g, GitUrl::File { path: "/local/disk/path".to_string() });
}

#[test]
fn relative_path_without_colon_is_local() {
    let g = GitUrl::parse("plain-directory").unwrap();
    assert_eq!(g, GitUrl::File { path: "plain-directory".to_string() });
}

#[test]
fn rejects_unsupported_scheme() {
    let e = GitUrl::parse("svn://example.com/repo").unwrap_err();
    assert_eq!(e, InvalidLocator::UnsupportedScheme { scheme: "svn".to_string() });
}

#[test]
fn rejects_empty_host() {
    let e = GitUrl::parse("ssh:///a/b").unwrap_err();
    assert_eq!(e, InvalidLocator::EmptyHost);
}

#[test]
fn accessors_report_layout_fields() {
    let g = GitUrl::parse("git@github.com:foo/bar.git").unwrap();
    assert_eq!(g.username(), "foo".to_string());
    assert_eq!(g.host(), "github.com");
    assert_eq!(g.path(), "bar.git");

    let h = GitUrl::parse("https://github.com/foo/bar.git").unwrap();
    assert_eq!(h.username(), "".to_string());
    assert_eq!(h.host(), "github.com");
    assert_eq!(h.path(), "/foo/bar.git");
}

#[test]
fn file_locator_reports_local_host() {
    let g = GitUrl::parse("/local/disk/path").unwrap();
    assert_eq!(g.username(), "".to_string());
    assert_eq!(g.host(), "local");
    assert_eq!(g.path(), "/local/disk/path");
}
