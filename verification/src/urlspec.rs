//! Trusted boundary around the `url` crate, which implements the WHATWG URL
//! grammar used for scheme-qualified locators. Each component of a parsed URL
//! is a pure function of the input string alone, so each gets an
//! uninterpreted name, and a wrapper relates the runtime value to that name.

use vstd::prelude::*;

verus! {

/// Whether `url::Url::parse` accepts the string.
pub uninterp spec fn url_accepts(s: Seq<char>) -> bool;

/// The scheme component that `url::Url::scheme` reports for an accepted
/// string (lower-cased, without the ':' delimiter).
pub uninterp spec fn url_scheme_of(s: Seq<char>) -> Seq<char>;

/// The user-info component that `url::Url::username` reports for an accepted
/// string (empty when absent).
pub uninterp spec fn url_username_of(s: Seq<char>) -> Seq<char>;

/// The host component that `url::Url::host_str` reports for an accepted
/// string, or `None` where the URL has no host.
pub uninterp spec fn url_host_of(s: Seq<char>) -> Option<Seq<char>>;

/// The explicit port that `url::Url::port` reports for an accepted string.
pub uninterp spec fn url_port_of(s: Seq<char>) -> Option<u16>;

/// The path component that `url::Url::path` reports for an accepted string.
pub uninterp spec fn url_path_of(s: Seq<char>) -> Seq<char>;

/// Relies on url::Url::parse: it either accepts a string or reports a parse
/// error, and its outcome depends on the string alone.
#[verifier::external_body]
pub(crate) fn url_accepts_exec(s: &str) -> (r: bool)
    ensures
        r == url_accepts(s@),
{
    url::Url::parse(s).is_ok()
}

/// Relies on url::Url::parse and url::Url::scheme: the scheme of an accepted
/// string, lower-cased and without the ':' delimiter.
#[verifier::external_body]
pub(crate) fn url_scheme(s: &str) -> (r: String)
    requires
        url_accepts(s@),
    ensures
        r@ == url_scheme_of(s@),
{
    match url::Url::parse(s) {
        Ok(u) => u.scheme().to_string(),
        Err(_) => String::new(),
    }
}

/// Relies on url::Url::parse and url::Url::username: the user-info component
/// of an accepted string, empty when the URL carries none.
#[verifier::external_body]
pub(crate) fn url_username(s: &str) -> (r: String)
    requires
        url_accepts(s@),
    ensures
        r@ == url_username_of(s@),
{
    match url::Url::parse(s) {
        Ok(u) => u.username().to_string(),
        Err(_) => String::new(),
    }
}

/// Relies on url::Url::parse and url::Url::host_str: the host component of an
/// accepted string, `None` where the URL has no host.
#[verifier::external_body]
pub(crate) fn url_host(s: &str) -> (r: Option<String>)
    requires
        url_accepts(s@),
    ensures
        r.deep_view() == url_host_of(s@),
{
    match url::Url::parse(s) {
        Ok(u) => u.host_str().map(|h| h.to_string()),
        Err(_) => None,
    }
}

/// Relies on url::Url::parse and url::Url::port: the explicit port of an
/// accepted string, `None` where the URL names none.
#[verifier::external_body]
pub(crate) fn url_port(s: &str) -> (r: Option<u16>)
    requires
        url_accepts(s@),
    ensures
        r == url_port_of(s@),
{
    match url::Url::parse(s) {
        Ok(u) => u.port(),
        Err(_) => None,
    }
}

/// Relies on url::Url::parse and url::Url::path: the path component of an
/// accepted string.
#[verifier::external_body]
pub(crate) fn url_path(s: &str) -> (r: String)
    requires
        url_accepts(s@),
    ensures
        r@ == url_path_of(s@),
{
    match url::Url::parse(s) {
        Ok(u) => u.path().to_string(),
        Err(_) => String::new(),
    }
}

} // verus!
