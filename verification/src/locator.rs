//! Remote-locator parser. A raw string is normalized into one structured
//! value: a scheme-qualified URL (handled by the `url` crate, behind the
//! trusted items of `urlspec`), the legacy scheme-less shorthand
//! `[user@]host:[account]/path` (handled by a small verified parser), or a
//! bare local filesystem path.

use vstd::prelude::*;

use crate::text::{first_index_of, idx_of, lemma_idx_of, substring};
use crate::urlspec::{
    url_accepts, url_accepts_exec, url_host, url_host_of, url_path, url_path_of, url_port,
    url_port_of, url_scheme, url_scheme_of, url_username, url_username_of,
};

verus! {

/// A structured remote locator. Every variant but `File` carries a non-empty
/// host. `path` is stored exactly as extracted from the input; stripping is
/// the layout resolver's job.
#[derive(Clone, Debug, PartialEq, Eq)]
pub enum GitUrl {
    Ssh {
        user: Option<String>,
        host: String,
        port: Option<u16>,
        username: Option<String>,
        path: String,
    },
    Git {
        host: String,
        port: Option<u16>,
        username: Option<String>,
        path: String,
    },
    Http {
        https: bool,
        host: String,
        port: Option<u16>,
        path: String,
    },
    Ftp {
        ftps: bool,
        host: String,
        port: Option<u16>,
        path: String,
    },
    File {
        path: String,
    },
}

/// Mathematical image of a `GitUrl`: the same shape over sequences of
/// characters.
#[verifier::ext_equal]
pub enum GitUrlV {
    Ssh {
        user: Option<Seq<char>>,
        host: Seq<char>,
        port: Option<u16>,
        username: Option<Seq<char>>,
        path: Seq<char>,
    },
    Git {
        host: Seq<char>,
        port: Option<u16>,
        username: Option<Seq<char>>,
        path: Seq<char>,
    },
    Http {
        https: bool,
        host: Seq<char>,
        port: Option<u16>,
        path: Seq<char>,
    },
    Ftp {
        ftps: bool,
        host: Seq<char>,
        port: Option<u16>,
        path: Seq<char>,
    },
    File {
        path: Seq<char>,
    },
}

impl DeepView for GitUrl {
    type V = GitUrlV;

    open spec fn deep_view(&self) -> GitUrlV {
        match self {
            GitUrl::Ssh { user, host, port, username, path } => GitUrlV::Ssh {
                user: user.deep_view(),
                host: host@,
                port: *port,
                username: username.deep_view(),
                path: path@,
            },
            GitUrl::Git { host, port, username, path } => GitUrlV::Git {
                host: host@,
                port: *port,
                username: username.deep_view(),
                path: path@,
            },
            GitUrl::Http { https, host, port, path } => GitUrlV::Http {
                https: *https,
                host: host@,
                port: *port,
                path: path@,
            },
            GitUrl::Ftp { ftps, host, port, path } => GitUrlV::Ftp {
                ftps: *ftps,
                host: host@,
                port: *port,
                path: path@,
            },
            GitUrl::File { path } => GitUrlV::File { path: path@ },
        }
    }
}

/// Why a recognized scheme was rejected.
#[derive(Clone, Debug, PartialEq, Eq)]
pub enum InvalidLocator {
    EmptyHost,
    UnsupportedScheme { scheme: String },
}

/// Mathematical image of an `InvalidLocator`.
#[verifier::ext_equal]
pub enum InvalidLocatorV {
    EmptyHost,
    UnsupportedScheme { scheme: Seq<char> },
}

impl DeepView for InvalidLocator {
    type V = InvalidLocatorV;

    open spec fn deep_view(&self) -> InvalidLocatorV {
        match self {
            InvalidLocator::EmptyHost => InvalidLocatorV::EmptyHost,
            InvalidLocator::UnsupportedScheme { scheme } => InvalidLocatorV::UnsupportedScheme {
                scheme: scheme@,
            },
        }
    }
}

/// Whether the legacy shorthand `[user@]host:[account]/path` matches the
/// whole string: a non-empty, '/'-free token before the first ':', a '/'
/// somewhere after it, and a non-empty remainder after that '/'.
pub open spec fn shorthand_parses(s: Seq<char>) -> bool {
    let colon = idx_of(s, ':');
    let slash = idx_of(s, '/');
    1 <= colon && colon < slash && slash + 1 < s.len()
}

/// The locator the shorthand denotes: the part before the first ':' splits at
/// its first '@' into user and host when both sides are non-empty, the
/// account is the (possibly empty, hence optional) segment between the ':'
/// and the first '/', and the path is everything after that '/'.
pub open spec fn shorthand_locator(s: Seq<char>) -> GitUrlV {
    let colon = idx_of(s, ':');
    let slash = idx_of(s, '/');
    let at = idx_of(s, '@');
    let has_user = 1 <= at && at + 1 < colon;
    GitUrlV::Ssh {
        user: if has_user {
            Some(s.subrange(0, at))
        } else {
            None
        },
        host: if has_user {
            s.subrange(at + 1, colon)
        } else {
            s.subrange(0, colon)
        },
        port: None,
        username: if colon + 1 < slash {
            Some(s.subrange(colon + 1, slash))
        } else {
            None
        },
        path: s.subrange(slash + 1, s.len() as int),
    }
}

/// What `parse` returns, for every input. Scheme-qualified parsing comes
/// first; the shorthand is attempted only where the URL grammar does not
/// match; everything else is a local path, verbatim.
pub open spec fn spec_parse(s: Seq<char>) -> Result<GitUrlV, InvalidLocatorV> {
    if url_accepts(s) {
        let scheme = url_scheme_of(s);
        if scheme == "ssh"@ {
            match url_host_of(s) {
                Some(h) => if h.len() == 0 {
                    Err(InvalidLocatorV::EmptyHost)
                } else {
                    Ok(GitUrlV::Ssh {
                        user: if url_username_of(s).len() == 0 {
                            None
                        } else {
                            Some(url_username_of(s))
                        },
                        host: h,
                        port: url_port_of(s),
                        username: None,
                        path: url_path_of(s),
                    })
                },
                None => Err(InvalidLocatorV::EmptyHost),
            }
        } else if scheme == "git"@ {
            match url_host_of(s) {
                Some(h) => if h.len() == 0 {
                    Err(InvalidLocatorV::EmptyHost)
                } else {
                    Ok(GitUrlV::Git {
                        host: h,
                        port: url_port_of(s),
                        username: None,
                        path: url_path_of(s),
                    })
                },
                None => Err(InvalidLocatorV::EmptyHost),
            }
        } else if scheme == "http"@ || scheme == "https"@ {
            match url_host_of(s) {
                Some(h) => if h.len() == 0 {
                    Err(InvalidLocatorV::EmptyHost)
                } else {
                    Ok(GitUrlV::Http {
                        https: scheme == "https"@,
                        host: h,
                        port: url_port_of(s),
                        path: url_path_of(s),
                    })
                },
                None => Err(InvalidLocatorV::EmptyHost),
            }
        } else if scheme == "ftp"@ || scheme == "ftps"@ {
            match url_host_of(s) {
                Some(h) => if h.len() == 0 {
                    Err(InvalidLocatorV::EmptyHost)
                } else {
                    Ok(GitUrlV::Ftp {
                        ftps: scheme == "ftps"@,
                        host: h,
                        port: url_port_of(s),
                        path: url_path_of(s),
                    })
                },
                None => Err(InvalidLocatorV::EmptyHost),
            }
        } else if scheme == "file"@ {
            Ok(GitUrlV::File { path: url_path_of(s) })
        } else {
            Err(InvalidLocatorV::UnsupportedScheme { scheme })
        }
    } else if shorthand_parses(s) {
        Ok(shorthand_locator(s))
    } else {
        Ok(GitUrlV::File { path: s })
    }
}

/// Every non-`File` locator carries a non-empty host.
pub open spec fn locator_wf(g: GitUrlV) -> bool {
    match g {
        GitUrlV::Ssh { host, .. } => host.len() > 0,
        GitUrlV::Git { host, .. } => host.len() > 0,
        GitUrlV::Http { host, .. } => host.len() > 0,
        GitUrlV::Ftp { host, .. } => host.len() > 0,
        GitUrlV::File { .. } => true,
    }
}

/// The shorthand never yields an empty host.
proof fn lemma_shorthand_wf(s: Seq<char>)
    requires
        shorthand_parses(s),
    ensures
        locator_wf(shorthand_locator(s)),
{
    lemma_idx_of(s, ':');
    lemma_idx_of(s, '@');
}

/// Parse the shorthand form, if it matches the whole string.
fn parse_shorthand(s: &str) -> (r: Option<GitUrl>)
    ensures
        r is Some <==> shorthand_parses(s@),
        r matches Some(g) ==> g.deep_view() == shorthand_locator(s@),
{
    let n = s.unicode_len();
    let colon = first_index_of(s, ':');
    let slash = first_index_of(s, '/');
    proof {
        lemma_idx_of(s@, ':');
        lemma_idx_of(s@, '/');
        lemma_idx_of(s@, '@');
    }
    if !(1 <= colon && colon < slash && n - slash > 1) {
        return None;
    }
    let at = first_index_of(s, '@');
    let has_user = 1 <= at && at < colon && colon - at > 1;
    let user = if has_user {
        Some(substring(s, 0, at))
    } else {
        None
    };
    let host = if has_user {
        substring(s, at + 1, colon)
    } else {
        substring(s, 0, colon)
    };
    let username = if colon + 1 < slash {
        Some(substring(s, colon + 1, slash))
    } else {
        None
    };
    let path = substring(s, slash + 1, n);
    Some(GitUrl::Ssh { user, host, port: None, username, path })
}

impl GitUrl {
    /// Parse a raw locator string. Scheme-qualified locators are dispatched
    /// on their scheme; a recognized scheme with no (or an empty) host is
    /// rejected with `EmptyHost`, an unknown scheme with
    /// `UnsupportedScheme`. Strings outside the URL grammar fall back to the
    /// legacy shorthand and, failing that, to a verbatim local path, so only
    /// scheme-qualified inputs can be rejected.
    pub fn parse(raw: &str) -> (r: Result<GitUrl, InvalidLocator>)
        ensures
            match r {
                Ok(g) => spec_parse(raw@) == Ok::<GitUrlV, InvalidLocatorV>(g.deep_view())
                    && locator_wf(g.deep_view()),
                Err(e) => spec_parse(raw@) == Err::<GitUrlV, InvalidLocatorV>(e.deep_view()),
            },
            r is Err ==> url_accepts(raw@),
    {
        if url_accepts_exec(raw) {
            let scheme = url_scheme(raw);
            if scheme == String::from_str("ssh") {
                match url_host(raw) {
                    Some(h) => {
                        if h.unicode_len() == 0 {
                            Err(InvalidLocator::EmptyHost)
                        } else {
                            let u = url_username(raw);
                            let user = if u.unicode_len() == 0 {
                                None
                            } else {
                                Some(u)
                            };
                            Ok(GitUrl::Ssh {
                                user,
                                host: h,
                                port: url_port(raw),
                                username: None,
                                path: url_path(raw),
                            })
                        }
                    },
                    None => Err(InvalidLocator::EmptyHost),
                }
            } else if scheme == String::from_str("git") {
                match url_host(raw) {
                    Some(h) => {
                        if h.unicode_len() == 0 {
                            Err(InvalidLocator::EmptyHost)
                        } else {
                            Ok(GitUrl::Git {
                                host: h,
                                port: url_port(raw),
                                username: None,
                                path: url_path(raw),
                            })
                        }
                    },
                    None => Err(InvalidLocator::EmptyHost),
                }
            } else if scheme == String::from_str("http") || scheme == String::from_str("https") {
                match url_host(raw) {
                    Some(h) => {
                        if h.unicode_len() == 0 {
                            Err(InvalidLocator::EmptyHost)
                        } else {
                            Ok(GitUrl::Http {
                                https: scheme == String::from_str("https"),
                                host: h,
                                port: url_port(raw),
                                path: url_path(raw),
                            })
                        }
                    },
                    None => Err(InvalidLocator::EmptyHost),
                }
            } else if scheme == String::from_str("ftp") || scheme == String::from_str("ftps") {
                match url_host(raw) {
                    Some(h) => {
                        if h.unicode_len() == 0 {
                            Err(InvalidLocator::EmptyHost)
                        } else {
                            Ok(GitUrl::Ftp {
                                ftps: scheme == String::from_str("ftps"),
                                host: h,
                                port: url_port(raw),
                                path: url_path(raw),
                            })
                        }
                    },
                    None => Err(InvalidLocator::EmptyHost),
                }
            } else if scheme == String::from_str("file") {
                Ok(GitUrl::File { path: url_path(raw) })
            } else {
                Err(InvalidLocator::UnsupportedScheme { scheme })
            }
        } else {
            match parse_shorthand(raw) {
                Some(g) => {
                    proof {
                        lemma_shorthand_wf(raw@);
                    }
                    Ok(g)
                },
                None => Ok(GitUrl::File { path: raw.to_owned() }),
            }
        }
    }
}

impl GitUrl {
    /// The account/username field as display code sees it: the secondary
    /// account segment where the variant has one, else empty.
    pub open spec fn spec_username(&self) -> Seq<char> {
        match self {
            GitUrl::Ssh { username: Some(u), .. } => u@,
            GitUrl::Git { username: Some(u), .. } => u@,
            _ => Seq::empty(),
        }
    }

    /// The host as display and layout code see it: `File` locators report the
    /// fixed sentinel "local" rather than failing.
    pub open spec fn spec_host(&self) -> Seq<char> {
        match self {
            GitUrl::Ssh { host, .. } => host@,
            GitUrl::Git { host, .. } => host@,
            GitUrl::Http { host, .. } => host@,
            GitUrl::Ftp { host, .. } => host@,
            GitUrl::File { .. } => "local"@,
        }
    }

    /// The path field exactly as stored.
    pub open spec fn spec_path(&self) -> Seq<char> {
        match self {
            GitUrl::Ssh { path, .. } => path@,
            GitUrl::Git { path, .. } => path@,
            GitUrl::Http { path, .. } => path@,
            GitUrl::Ftp { path, .. } => path@,
            GitUrl::File { path } => path@,
        }
    }

    /// The account segment of the locator, or the empty string where the
    /// variant carries none.
    pub fn username(&self) -> (r: String)
        ensures
            r@ == self.spec_username(),
    {
        match self {
            GitUrl::Ssh { username: Some(u), .. } => u.clone(),
            GitUrl::Git { username: Some(u), .. } => u.clone(),
            _ => String::new(),
        }
    }

    /// The host of the locator; `File` locators report "local".
    pub fn host(&self) -> (r: &str)
        ensures
            r@ == self.spec_host(),
    {
        match self {
            GitUrl::Ssh { host, .. } => host.as_str(),
            GitUrl::Git { host, .. } => host.as_str(),
            GitUrl::Http { host, .. } => host.as_str(),
            GitUrl::Ftp { host, .. } => host.as_str(),
            GitUrl::File { .. } => "local",
        }
    }

    /// The path field exactly as stored.
    pub fn path(&self) -> (r: &str)
        ensures
            r@ == self.spec_path(),
    {
        match self {
            GitUrl::Ssh { path, .. } => path.as_str(),
            GitUrl::Git { path, .. } => path.as_str(),
            GitUrl::Http { path, .. } => path.as_str(),
            GitUrl::Ftp { path, .. } => path.as_str(),
            GitUrl::File { path } => path.as_str(),
        }
    }
}

} // verus!
