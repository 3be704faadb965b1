//! Layout resolver. Managed repositories live under
//! `<root>/<kind>/<host>/<account>/<path>`, with an empty account collapsed
//! rather than left as an empty directory name. `compose` builds such a path
//! from its parts, `decompose` recovers the three-level split used when
//! rendering scan results, and `normalize_clone_path` turns a locator's raw
//! path into the segment stored under the layout.

use vstd::prelude::*;

use crate::locator::GitUrl;
use crate::text::{first_index_of, idx_of, lemma_idx_of, lemma_idx_of_eq, substring};

verus! {

/// One row of a repository listing: the decomposed layout fields of one
/// discovered repository.
#[derive(Clone, Debug, PartialEq, Eq)]
pub struct RepoTableItem {
    pub path: String,
    pub ty: String,
    pub hostname: String,
}

/// Decomposition was attempted on a path that is not a descendant of the
/// configured root.
#[derive(Clone, Copy, Debug, PartialEq, Eq)]
pub struct NotUnderRoot;

/// The directory separator, as a sequence.
pub open spec fn sep() -> Seq<char> {
    seq!['/']
}

/// The layout path composed from a root and the four layout fields. An empty
/// account contributes no segment.
pub open spec fn compose_spec(
    root: Seq<char>,
    kind: Seq<char>,
    host: Seq<char>,
    account: Seq<char>,
    path: Seq<char>,
) -> Seq<char> {
    root + sep() + kind + sep() + host + (if account.len() == 0 {
        Seq::<char>::empty()
    } else {
        sep() + account
    }) + sep() + path
}

/// Whether `c` lies strictly below `root`: it extends `root` with a
/// separator.
pub open spec fn under_root(root: Seq<char>, c: Seq<char>) -> bool {
    c.len() > root.len() && c.subrange(0, root.len() as int) == root && c[root.len() as int]
        == '/'
}

/// The three-level split of a concrete path below `root`: the first segment
/// after the root is the kind, the second the host, and the remainder the
/// relative repository path; segments missing from a shallow path are empty.
pub open spec fn decompose_spec(root: Seq<char>, c: Seq<char>) -> Result<
    (Seq<char>, Seq<char>, Seq<char>),
    (),
> {
    if !under_root(root, c) {
        Err(())
    } else {
        let rest = c.subrange(root.len() as int + 1, c.len() as int);
        let k = idx_of(rest, '/');
        let kind = rest.subrange(0, k);
        if k == rest.len() {
            Ok((kind, Seq::<char>::empty(), Seq::<char>::empty()))
        } else {
            let rest2 = rest.subrange(k + 1, rest.len() as int);
            let h = idx_of(rest2, '/');
            let host = rest2.subrange(0, h);
            if h == rest2.len() {
                Ok((kind, host, Seq::<char>::empty()))
            } else {
                Ok((kind, host, rest2.subrange(h + 1, rest2.len() as int)))
            }
        }
    }
}

/// Join a root and the four layout fields into one concrete path. Inputs are
/// treated as opaque segments; this never fails.
pub fn compose(root: &str, kind: &str, host: &str, account: &str, path: &str) -> (r: String)
    ensures
        r@ == compose_spec(root@, kind@, host@, account@, path@),
{
    proof {
        reveal_strlit("/");
        assert("/"@ =~= sep());
    }
    let mut out = root.to_owned();
    out.append("/");
    out.append(kind);
    out.append("/");
    out.append(host);
    if account.unicode_len() > 0 {
        out.append("/");
        out.append(account);
    }
    out.append("/");
    out.append(path);
    proof {
        assert(out@ =~= compose_spec(root@, kind@, host@, account@, path@));
    }
    out
}

/// Invert `compose` for the three-level case: recover (kind, host, relative
/// path) from a concrete path, or fail where the path is not below the root.
pub fn decompose(root: &str, concrete: &str) -> (r: Result<RepoTableItem, NotUnderRoot>)
    ensures
        match r {
            Ok(item) => decompose_spec(root@, concrete@) == Ok::<_, ()>(
                (item.ty@, item.hostname@, item.path@),
            ),
            Err(_) => decompose_spec(root@, concrete@) is Err,
        },
{
    let rl = root.unicode_len();
    let n = concrete.unicode_len();
    if n <= rl {
        return Err(NotUnderRoot);
    }
    let prefix = substring(concrete, 0, rl);
    if !(prefix == root.to_owned()) {
        return Err(NotUnderRoot);
    }
    if concrete.get_char(rl) != '/' {
        return Err(NotUnderRoot);
    }
    let rest = substring(concrete, rl + 1, n);
    let rest_len = rest.as_str().unicode_len();
    let k = first_index_of(rest.as_str(), '/');
    proof {
        lemma_idx_of(rest@, '/');
    }
    let kind = substring(rest.as_str(), 0, k);
    if k == rest_len {
        return Ok(RepoTableItem { path: String::new(), ty: kind, hostname: String::new() });
    }
    let rest2 = substring(rest.as_str(), k + 1, rest_len);
    let rest2_len = rest2.as_str().unicode_len();
    let h = first_index_of(rest2.as_str(), '/');
    proof {
        lemma_idx_of(rest2@, '/');
    }
    let host = substring(rest2.as_str(), 0, h);
    if h == rest2_len {
        return Ok(RepoTableItem { path: String::new(), ty: kind, hostname: host });
    }
    let rel = substring(rest2.as_str(), h + 1, rest2_len);
    Ok(RepoTableItem { path: rel, ty: kind, hostname: host })
}

/// In `a + '/' + b` the first separator stands exactly at `a.len()` when `a`
/// itself is separator-free.
proof fn lemma_idx_of_sep_concat(a: Seq<char>, b: Seq<char>)
    requires
        !a.contains('/'),
    ensures
        idx_of(a + sep() + b, '/') == a.len(),
{
    let s = a + sep() + b;
    assert forall|j: int| 0 <= j < a.len() implies s[j] != '/' by {
        assert(s[j] == a[j]);
        if a[j] == '/' {
            assert(a.contains('/'));
        }
    }
    assert(s[a.len() as int] == '/');
    lemma_idx_of_eq(s, '/', a.len() as int);
}

/// Round-trip law: decomposing a composed layout path recovers its fields.
/// For any root and any separator-free kind, host and account, an empty
/// account gives back (kind, host, path) exactly, and a non-empty account
/// gives back (kind, host, account ++ '/' ++ path), so the full four-tuple is
/// recovered by splitting the relative path at its first separator.
pub proof fn lemma_compose_decompose(
    root: Seq<char>,
    kind: Seq<char>,
    host: Seq<char>,
    account: Seq<char>,
    path: Seq<char>,
)
    requires
        !kind.contains('/'),
        !host.contains('/'),
        !account.contains('/'),
    ensures
        account.len() == 0 ==> decompose_spec(root, compose_spec(root, kind, host, account, path))
            == Ok::<_, ()>((kind, host, path)),
        account.len() > 0 ==> decompose_spec(root, compose_spec(root, kind, host, account, path))
            == Ok::<_, ()>((kind, host, account + sep() + path)),
        account.len() > 0 ==> idx_of(account + sep() + path, '/') == account.len(),
{
    let c = compose_spec(root, kind, host, account, path);
    assert(c.subrange(0, root.len() as int) =~= root);
    assert(c[root.len() as int] == '/');
    assert(under_root(root, c));
    let rest = c.subrange(root.len() as int + 1, c.len() as int);
    let tail2 = account + sep() + path;
    let tail1 = if account.len() == 0 {
        host + sep() + path
    } else {
        host + sep() + tail2
    };
    assert(rest =~= kind + sep() + tail1);
    lemma_idx_of_sep_concat(kind, tail1);
    let k = idx_of(rest, '/');
    assert(k == kind.len());
    assert(rest.subrange(0, k) =~= kind);
    assert(k < rest.len());
    let rest2 = rest.subrange(k + 1, rest.len() as int);
    assert(rest2 =~= tail1);
    if account.len() == 0 {
        lemma_idx_of_sep_concat(host, path);
    } else {
        lemma_idx_of_sep_concat(host, tail2);
        lemma_idx_of_sep_concat(account, path);
    }
    let h = idx_of(rest2, '/');
    assert(h == host.len());
    assert(rest2.subrange(0, h) =~= host);
    assert(h < rest2.len());
    if account.len() == 0 {
        assert(rest2.subrange(h + 1, rest2.len() as int) =~= path);
    } else {
        assert(rest2.subrange(h + 1, rest2.len() as int) =~= tail2);
    }
}

/// One leading separator stripped, if present.
pub open spec fn strip_leading_sep(s: Seq<char>) -> Seq<char> {
    if s.len() >= 1 && s[0] == '/' {
        s.drop_first()
    } else {
        s
    }
}

/// One trailing ".git" marker stripped, if present.
pub open spec fn strip_marker_suffix(s: Seq<char>) -> Seq<char> {
    if s.len() >= 4 && s.subrange(s.len() - 4, s.len() as int) == ".git"@ {
        s.subrange(0, s.len() - 4)
    } else {
        s
    }
}

/// The path segment a locator's raw path contributes under the layout.
pub open spec fn clone_path_spec(s: Seq<char>) -> Seq<char> {
    strip_marker_suffix(strip_leading_sep(s))
}

/// The path segment to use under the layout for a locator: its raw path with
/// exactly one leading separator and one trailing ".git" marker stripped,
/// where present. Purely textual; the filesystem is not consulted.
pub fn normalize_clone_path(locator: &GitUrl) -> (r: String)
    ensures
        r@ == clone_path_spec(locator.spec_path()),
{
    let p = locator.path();
    let n = p.unicode_len();
    let start: usize = if n >= 1 && p.get_char(0) == '/' {
        1
    } else {
        0
    };
    let ghost stripped = strip_leading_sep(p@);
    proof {
        assert(stripped =~= p@.subrange(start as int, n as int));
    }
    proof {
        reveal_strlit(".git");
    }
    let end: usize = if n - start >= 4 && p.get_char(n - 4) == '.' && p.get_char(n - 3) == 'g'
        && p.get_char(n - 2) == 'i' && p.get_char(n - 1) == 't' {
        proof {
            assert(stripped.subrange(stripped.len() - 4, stripped.len() as int) =~= ".git"@);
        }
        n - 4
    } else {
        proof {
            reveal_strlit(".git");
            if stripped.len() >= 4 && stripped.subrange(stripped.len() - 4, stripped.len() as int)
                == ".git"@ {
                let m = stripped.len() as int;
                assert(stripped.subrange(m - 4, m)[0] == ".git"@[0]);
                assert(stripped.subrange(m - 4, m)[1] == ".git"@[1]);
                assert(stripped.subrange(m - 4, m)[2] == ".git"@[2]);
                assert(stripped.subrange(m - 4, m)[3] == ".git"@[3]);
                assert(stripped[m - 4] == '.');
                assert(stripped[m - 3] == 'g');
                assert(stripped[m - 2] == 'i');
                assert(stripped[m - 1] == 't');
                assert(p@[n - 4] == '.' && p@[n - 3] == 'g' && p@[n - 2] == 'i' && p@[n - 1]
                    == 't');
            }
        }
        n
    };
    let r = substring(p, start, end);
    proof {
        assert(r@ =~= clone_path_spec(locator.spec_path()));
    }
    r
}

} // verus!
