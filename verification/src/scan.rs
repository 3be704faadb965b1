//! Repository scanner. The filesystem subtree to scan is modelled as a tree
//! value: reading the real directories is the caller's concern, and every
//! decision — which directories are repository roots, where recursion stops,
//! and how a read failure aborts the whole scan — is made here, over that
//! value, and verified.

use vstd::prelude::*;

verus! {

broadcast use vstd::std_specs::vec::group_vec_axioms;

/// One entry of a directory listing: a readable directory with its own
/// listing, a non-directory entry, or a directory whose listing could not be
/// read (carrying the reason).
#[derive(Debug)]
pub enum FsNode {
    Dir { name: String, entries: Vec<FsNode> },
    Leaf { name: String },
    UnreadableDir { name: String, cause: String },
}

/// One discovered repository root, as the sequence of path segments below the
/// scan root.
#[derive(Clone, Debug, PartialEq, Eq)]
pub struct RepositoryEntry {
    pub relative_path: Vec<String>,
}

impl DeepView for RepositoryEntry {
    type V = Seq<Seq<char>>;

    open spec fn deep_view(&self) -> Seq<Seq<char>> {
        self.relative_path.deep_view()
    }
}

/// A directory read failure: the path of the unreadable directory below the
/// scan root, and the underlying cause.
#[derive(Clone, Debug, PartialEq, Eq)]
pub enum ScanError {
    Io { path: Vec<String>, cause: String },
}

impl DeepView for ScanError {
    type V = (Seq<Seq<char>>, Seq<char>);

    open spec fn deep_view(&self) -> (Seq<Seq<char>>, Seq<char>) {
        match self {
            ScanError::Io { path, cause } => (path.deep_view(), cause@),
        }
    }
}

/// The name of one directory entry.
pub open spec fn node_name(e: FsNode) -> Seq<char> {
    match e {
        FsNode::Dir { name, .. } => name@,
        FsNode::Leaf { name } => name@,
        FsNode::UnreadableDir { name, .. } => name@,
    }
}

/// Whether one directory entry is the reserved working-copy marker: a
/// directory named ".git". An unreadable directory of that name still exists
/// as a directory, so it counts.
pub open spec fn is_marker(e: FsNode) -> bool {
    match e {
        FsNode::Dir { name, .. } => name@ == ".git"@,
        FsNode::UnreadableDir { name, .. } => name@ == ".git"@,
        FsNode::Leaf { .. } => false,
    }
}

/// Whether a listing directly contains the marker.
pub open spec fn has_marker(es: Seq<FsNode>) -> bool {
    exists|i: int| 0 <= i < es.len() && is_marker(es[i])
}

/// The outcome of scanning one node at relative path `rel`: a directory that
/// directly contains the marker is itself the one entry yielded, and is not
/// entered; a directory without the marker yields whatever its children
/// yield, in listing order; a non-directory yields nothing; an unreadable
/// directory aborts the whole scan.
pub open spec fn scan_spec(n: FsNode, rel: Seq<Seq<char>>) -> Result<
    Seq<Seq<Seq<char>>>,
    (Seq<Seq<char>>, Seq<char>),
>
    decreases n, 0int,
{
    match n {
        FsNode::Leaf { .. } => Ok(Seq::empty()),
        FsNode::UnreadableDir { name: _, cause } => Err((rel, cause@)),
        FsNode::Dir { name: _, entries } => {
            if has_marker(entries@) {
                Ok(seq![rel])
            } else {
                scan_entries_spec(entries@, 0, rel)
            }
        },
    }
}

/// The concatenated outcome of scanning the children from position `i` on.
pub open spec fn scan_entries_spec(es: Seq<FsNode>, i: int, rel: Seq<Seq<char>>) -> Result<
    Seq<Seq<Seq<char>>>,
    (Seq<Seq<char>>, Seq<char>),
>
    decreases es, es.len() - i + 1,
{
    if i < 0 || i >= es.len() {
        Ok(Seq::empty())
    } else {
        match scan_spec(es[i], rel.push(node_name(es[i]))) {
            Ok(found) => match scan_entries_spec(es, i + 1, rel) {
                Ok(more) => Ok(found + more),
                Err(e) => Err(e),
            },
            Err(e) => Err(e),
        }
    }
}

/// Whether the names in a listing are pairwise distinct, as the entries of a
/// real directory always are.
pub open spec fn distinct_names(es: Seq<FsNode>) -> bool {
    forall|a: int, b: int| 0 <= a < b < es.len() ==> node_name(es[a]) != node_name(es[b])
}

/// Whether every directory of the tree lists pairwise distinct names.
pub open spec fn tree_wf(n: FsNode) -> bool
    decreases n, 0int,
{
    match n {
        FsNode::Dir { name: _, entries } => distinct_names(entries@) && entries_wf(entries@, 0),
        _ => true,
    }
}

/// Whether every tree among the entries from position `i` on is well formed.
pub open spec fn entries_wf(es: Seq<FsNode>, i: int) -> bool
    decreases es, es.len() - i + 1,
{
    if i < 0 || i >= es.len() {
        true
    } else {
        tree_wf(es[i]) && entries_wf(es, i + 1)
    }
}

/// No path in `res` is a prefix of another.
pub open spec fn pairwise_non_nested(res: Seq<Seq<Seq<char>>>) -> bool {
    forall|a: int, b: int|
        0 <= a < res.len() && 0 <= b < res.len() && a != b ==> !res[a].is_prefix_of(res[b])
}

/// A prefix agrees with the longer sequence at every position it covers.
proof fn lemma_prefix_index(x: Seq<Seq<char>>, y: Seq<Seq<char>>, j: int)
    requires
        x.is_prefix_of(y),
        0 <= j < x.len(),
    ensures
        x[j] == y[j],
{
    assert(x =~= y.subrange(0, x.len() as int));
}

/// Extending the relative path by one segment and then taking any longer
/// path that it prefixes fixes that path's segment at the extension point.
proof fn lemma_push_prefix(rel: Seq<Seq<char>>, nm: Seq<char>, p: Seq<Seq<char>>)
    requires
        rel.push(nm).is_prefix_of(p),
    ensures
        p.len() > rel.len(),
        rel.is_prefix_of(p),
        p[rel.len() as int] == nm,
{
    lemma_prefix_index(rel.push(nm), p, rel.len() as int);
    assert(rel =~= p.subrange(0, rel.len() as int));
}

/// No discovered repository lies inside another. In a well-formed tree, every
/// path that a successful scan yields extends the relative path of the scan
/// root, and no yielded path is a prefix of another: a repository's own
/// substructure is never reported beside it.
pub proof fn lemma_scan_no_nesting(n: FsNode, rel: Seq<Seq<char>>)
    requires
        tree_wf(n),
    ensures
        scan_spec(n, rel) matches Ok(res) ==> pairwise_non_nested(res) && (forall|k: int|
            0 <= k < res.len() ==> rel.is_prefix_of(#[trigger] res[k])),
    decreases n, 0int,
{
    match n {
        FsNode::Leaf { .. } => {
        },
        FsNode::UnreadableDir { .. } => {
        },
        FsNode::Dir { name: _, entries } => {
            if has_marker(entries@) {
                assert(rel =~= rel.subrange(0, rel.len() as int));
                assert(rel.is_prefix_of(rel));
            } else {
                lemma_scan_entries_no_nesting(entries@, 0, rel);
            }
        },
    }
}

/// The inductive core of `lemma_scan_no_nesting`, over the children from
/// position `i` on: each yielded path strictly extends `rel` with the name of
/// one of those children, and no yielded path is a prefix of another.
proof fn lemma_scan_entries_no_nesting(es: Seq<FsNode>, i: int, rel: Seq<Seq<char>>)
    requires
        distinct_names(es),
        entries_wf(es, i),
        0 <= i,
    ensures
        scan_entries_spec(es, i, rel) matches Ok(res) ==> pairwise_non_nested(res) && (forall|
            k: int,
        |
            0 <= k < res.len() ==> res[k].len() > rel.len() && rel.is_prefix_of(
                #[trigger] res[k],
            ) && (exists|c: int|
                i <= c < es.len() && res[k][rel.len() as int] == #[trigger] node_name(es[c]))),
    decreases es, es.len() - i + 1,
{
    if i >= es.len() {
    } else {
        let nm = node_name(es[i]);
        let child_rel = rel.push(nm);
        lemma_scan_no_nesting(es[i], child_rel);
        lemma_scan_entries_no_nesting(es, i + 1, rel);
        if scan_spec(es[i], child_rel) is Ok && scan_entries_spec(es, i + 1, rel) is Ok {
            let found = scan_spec(es[i], child_rel)->Ok_0;
            let more = scan_entries_spec(es, i + 1, rel)->Ok_0;
            let res = found + more;
            assert(scan_entries_spec(es, i, rel) == Ok::<
                Seq<Seq<Seq<char>>>,
                (Seq<Seq<char>>, Seq<char>),
            >(res));
            assert forall|k: int| 0 <= k < res.len() implies res[k].len() > rel.len()
                && rel.is_prefix_of(#[trigger] res[k]) && (exists|c: int|
                i <= c < es.len() && res[k][rel.len() as int] == #[trigger] node_name(
                    es[c],
                )) by {
                if k < found.len() {
                    assert(res[k] == found[k]);
                    assert(child_rel.is_prefix_of(found[k]));
                    lemma_push_prefix(rel, nm, found[k]);
                    assert(res[k][rel.len() as int] == node_name(es[i]));
                } else {
                    assert(res[k] == more[k - found.len()]);
                }
            }
            assert forall|a: int, b: int|
                0 <= a < res.len() && 0 <= b < res.len() && a != b implies !res[a].is_prefix_of(
                res[b],
            ) by {
                if res[a].is_prefix_of(res[b]) {
                    if a < found.len() && b < found.len() {
                        assert(found[a].is_prefix_of(found[b]));
                    } else if a >= found.len() && b >= found.len() {
                        assert(more[a - found.len()].is_prefix_of(more[b - found.len()]));
                    } else {
                        // One path comes from the child at `i`, the other
                        // from a later child; their segments at position
                        // `rel.len()` are those two children's names, which
                        // are distinct, yet a prefix would make them equal.
                        if a < found.len() {
                            assert(child_rel.is_prefix_of(found[a]));
                            lemma_push_prefix(rel, nm, found[a]);
                            assert(res[a][rel.len() as int] == nm);
                            let c = choose|c: int|
                                i + 1 <= c < es.len() && res[b][rel.len() as int] == node_name(
                                    es[c],
                                );
                            assert(node_name(es[c]) != nm);
                            lemma_prefix_index(res[a], res[b], rel.len() as int);
                        } else {
                            assert(res[a] == more[a - found.len()]);
                            let c = choose|c: int|
                                i + 1 <= c < es.len() && res[a][rel.len() as int] == node_name(
                                    es[c],
                                );
                            assert(node_name(es[c]) != nm);
                            assert(child_rel.is_prefix_of(found[b]));
                            lemma_push_prefix(rel, nm, found[b]);
                            assert(res[b][rel.len() as int] == nm);
                            lemma_prefix_index(res[a], res[b], rel.len() as int);
                        }
                    }
                }
            }
        }
    }
}

/// Whether this string is the reserved marker name.
fn is_dotgit(name: &String) -> (r: bool)
    ensures
        r == (name@ == ".git"@),
{
    *name == String::from_str(".git")
}

/// Whether the listing directly contains the marker.
fn find_marker(entries: &Vec<FsNode>) -> (r: bool)
    ensures
        r == has_marker(entries@),
{
    let mut i: usize = 0;
    while i < entries.len()
        invariant
            0 <= i <= entries@.len(),
            forall|t: int| 0 <= t < i ==> !is_marker(entries@[t]),
        decreases entries@.len() - i,
    {
        let m = match &entries[i] {
            FsNode::Dir { name, .. } => is_dotgit(name),
            FsNode::UnreadableDir { name, .. } => is_dotgit(name),
            FsNode::Leaf { .. } => false,
        };
        if m {
            assert(is_marker(entries@[i as int]));
            return true;
        }
        i = i + 1;
    }
    false
}

/// An owned copy of a segment list, with the same view.
fn clone_segments(v: &Vec<String>) -> (r: Vec<String>)
    ensures
        r.deep_view() == v.deep_view(),
{
    let mut r: Vec<String> = Vec::new();
    let mut i: usize = 0;
    while i < v.len()
        invariant
            0 <= i <= v@.len(),
            r@.len() == i,
            forall|t: int| 0 <= t < i ==> r@[t]@ == v@[t]@,
        decreases v@.len() - i,
    {
        r.push(v[i].clone());
        i = i + 1;
    }
    proof {
        assert(r.deep_view() =~= v.deep_view());
    }
    r
}

/// The name of one directory entry, as an owned string.
fn name_of(e: &FsNode) -> (r: String)
    ensures
        r@ == node_name(*e),
{
    match e {
        FsNode::Dir { name, .. } => name.clone(),
        FsNode::Leaf { name } => name.clone(),
        FsNode::UnreadableDir { name, .. } => name.clone(),
    }
}

/// Scan one node at relative path `rel`.
#[verifier::loop_isolation(false)]
fn scan_node(node: &FsNode, rel: &Vec<String>) -> (r: Result<Vec<RepositoryEntry>, ScanError>)
    ensures
        match r {
            Ok(v) => scan_spec(*node, rel.deep_view()) == Ok::<
                Seq<Seq<Seq<char>>>,
                (Seq<Seq<char>>, Seq<char>),
            >(v.deep_view()),
            Err(e) => scan_spec(*node, rel.deep_view()) == Err::<
                Seq<Seq<Seq<char>>>,
                (Seq<Seq<char>>, Seq<char>),
            >(e.deep_view()),
        },
    decreases *node,
{
    match node {
        FsNode::Leaf { .. } => {
            let out: Vec<RepositoryEntry> = Vec::new();
            proof {
                assert(out.deep_view() =~= Seq::<Seq<Seq<char>>>::empty());
            }
            Ok(out)
        },
        FsNode::UnreadableDir { name: _, cause } => {
            Err(ScanError::Io { path: clone_segments(rel), cause: cause.clone() })
        },
        FsNode::Dir { name: _, entries } => {
            if find_marker(entries) {
                let mut out: Vec<RepositoryEntry> = Vec::new();
                out.push(RepositoryEntry { relative_path: clone_segments(rel) });
                proof {
                    assert(out.deep_view() =~= seq![rel.deep_view()]);
                }
                Ok(out)
            } else {
                let ghost relv = rel.deep_view();
                let ghost es = entries@;
                let mut out: Vec<RepositoryEntry> = Vec::new();
                let mut j: usize = 0;
                proof {
                    assert(out.deep_view() =~= Seq::<Seq<Seq<char>>>::empty());
                    if scan_entries_spec(es, 0, relv) is Ok {
                        let m = scan_entries_spec(es, 0, relv)->Ok_0;
                        assert(Seq::<Seq<Seq<char>>>::empty() + m =~= m);
                    }
                }
                while j < entries.len()
                    invariant
                        0 <= j <= es.len(),
                        es == entries@,
                        relv == rel.deep_view(),
                        scan_entries_spec(es, 0, relv) == match scan_entries_spec(
                            es,
                            j as int,
                            relv,
                        ) {
                            Ok(m) => Ok::<Seq<Seq<Seq<char>>>, (Seq<Seq<char>>, Seq<char>)>(
                                out.deep_view() + m,
                            ),
                            Err(e) => Err(e),
                        },
                    decreases es.len() - j,
                {
                    let child = &entries[j];
                    let mut rel_child = clone_segments(rel);
                    rel_child.push(name_of(child));
                    proof {
                        assert(rel_child.deep_view() =~= relv.push(node_name(es[j as int])));
                    }
                    proof {
                        assert(decreases_to!(*node => (*node)->Dir_entries));
                        assert(decreases_to!((*node)->Dir_entries => (*node)->Dir_entries@));
                        assert(decreases_to!((*node)->Dir_entries@ => (*node)->Dir_entries@[j as int]));
                        assert(*child == (*node)->Dir_entries@[j as int]);
                        assert(decreases_to!(*node => *child));
                    }
                    match scan_node(child, &rel_child) {
                        Ok(mut found) => {
                            let ghost old_out = out.deep_view();
                            let ghost found_v = found.deep_view();
                            out.append(&mut found);
                            proof {
                                assert(out.deep_view() =~= old_out + found_v);
                                if scan_entries_spec(es, j + 1, relv) is Ok {
                                    let m2 = scan_entries_spec(es, j + 1, relv)->Ok_0;
                                    assert(old_out + (found_v + m2) =~= (old_out + found_v) + m2);
                                }
                            }
                        },
                        Err(e) => {
                            proof {
                                assert(scan_entries_spec(es, j as int, relv) == Err::<
                                    Seq<Seq<Seq<char>>>,
                                    (Seq<Seq<char>>, Seq<char>),
                                >(e.deep_view()));
                            }
                            return Err(e);
                        },
                    }
                    j = j + 1;
                }
                proof {
                    assert(out.deep_view() + Seq::<Seq<Seq<char>>>::empty() =~= out.deep_view());
                }
                Ok(out)
            }
        },
    }
}

/// Scan a directory subtree for repository roots. Yields one entry per
/// directory that directly contains the reserved ".git" marker, in
/// depth-first listing order, never entering a yielded directory; a
/// non-directory is skipped silently. Any read failure aborts the whole scan
/// with the failing directory's path: results already gathered are discarded.
pub fn scan(start: &FsNode) -> (r: Result<Vec<RepositoryEntry>, ScanError>)
    ensures
        match r {
            Ok(v) => scan_spec(*start, Seq::empty()) == Ok::<
                Seq<Seq<Seq<char>>>,
                (Seq<Seq<char>>, Seq<char>),
            >(v.deep_view()),
            Err(e) => scan_spec(*start, Seq::empty()) == Err::<
                Seq<Seq<Seq<char>>>,
                (Seq<Seq<char>>, Seq<char>),
            >(e.deep_view()),
        },
{
    let rel: Vec<String> = Vec::new();
    proof {
        assert(rel.deep_view() =~= Seq::<Seq<char>>::empty());
    }
    scan_node(start, &rel)
}

} // verus!
