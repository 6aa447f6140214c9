//! Shaping the file tree: which entries a directory listing keeps and in
//! what order, and the markdown and name filters of the navigation views.
use vstd::prelude::*;
use crate::common::{FileNode, NodeView, node_view, nodes_view, lemma_nodes_view, lemma_nodes_view_push, copy_node};
use crate::text::{seq_ends_with, seq_starts_with, seq_contains, lowercase, to_lowercase, str_contains, str_ends_with, str_starts_with, chars_of};

verus! {

// ---------------------------------------------------------------------------
// Markdown filter
// ---------------------------------------------------------------------------

/// What the markdown filter keeps of one entry: a markdown file as it is; a
/// directory with its children filtered, unless none of them is kept;
/// nothing of any other file.
pub open spec fn md_item(e: NodeView) -> Seq<NodeView>
    decreases e, 1int,
{
    if e.is_dir {
        let f = match e.children {
            Some(c) => md_list(c),
            None => Seq::empty(),
        };
        if f.len() == 0 {
            Seq::empty()
        } else {
            seq![NodeView { name: e.name, path: e.path, is_dir: true, children: Some(f) }]
        }
    } else if seq_ends_with(e.name, ".md"@) {
        seq![e]
    } else {
        Seq::empty()
    }
}

/// The markdown filter of a list of entries, in order.
pub open spec fn md_list(s: Seq<NodeView>) -> Seq<NodeView>
    decreases s, 0int,
{
    if s.len() == 0 {
        Seq::empty()
    } else {
        md_list(s.subrange(0, s.len() - 1)) + md_item(s[s.len() - 1])
    }
}

proof fn lemma_md_list_push(s: Seq<NodeView>, e: NodeView)
    ensures
        md_list(s.push(e)) == md_list(s) + md_item(e),
{
    assert(s.push(e).subrange(0, s.len() as int) =~= s);
}

/// The entry kept by the markdown filter, if any.
fn filter_md_entry(e: &FileNode) -> (r: Option<FileNode>)
    ensures
        match r {
            Some(n) => md_item(node_view(*e)) == seq![node_view(n)],
            None => md_item(node_view(*e)) == Seq::<NodeView>::empty(),
        },
    decreases e,
{
    if e.is_dir {
        let f = match &e.children {
            Some(c) => filter_md_entries(c.as_slice()),
            None => Vec::new(),
        };
        proof {
            lemma_nodes_view(f@);
        }
        if f.len() == 0 {
            None
        } else {
            Some(FileNode { name: e.name.clone(), path: e.path.clone(), is_dir: true, children: Some(f) })
        }
    } else if str_ends_with(e.name.as_str(), ".md") {
        proof {
            reveal_strlit(".md");
        }
        Some(copy_node(e))
    } else {
        proof {
            reveal_strlit(".md");
        }
        None
    }
}

/// Keeps only markdown files and the directories that contain at least one
/// markdown file at some depth.
pub fn filter_md_entries(entries: &[FileNode]) -> (r: Vec<FileNode>)
    ensures
        nodes_view(r@) == md_list(nodes_view(entries@)),
    decreases entries@,
{
    let mut out: Vec<FileNode> = Vec::new();
    let mut i: usize = 0;
    while i < entries.len()
        invariant
            i <= entries@.len(),
            nodes_view(out@) == md_list(nodes_view(entries@.take(i as int))),
        decreases entries.len() - i,
    {
        proof {
            assert(entries@.take(i + 1) =~= entries@.take(i as int).push(entries@[i as int]));
            lemma_nodes_view_push(entries@.take(i as int), entries@[i as int]);
            lemma_md_list_push(nodes_view(entries@.take(i as int)), node_view(entries@[i as int]));
        }
        let item = filter_md_entry(&entries[i]);
        match item {
            Some(n) => {
                proof {
                    lemma_nodes_view_push(out@, n);
                }
                out.push(n);
            },
            None => {
                proof {
                    assert(md_list(nodes_view(entries@.take(i as int))) + Seq::<NodeView>::empty()
                        =~= md_list(nodes_view(entries@.take(i as int))));
                }
            },
        }
        i += 1;
    }
    proof {
        assert(entries@.take(entries@.len() as int) =~= entries@);
    }
    out
}

// ---------------------------------------------------------------------------
// Name filter
// ---------------------------------------------------------------------------

/// What the name filter keeps of one entry for the search text `query`: a
/// file whose lower-cased name contains the lower-cased query; a directory
/// with its children filtered (by the lower-cased query), unless none is kept.
pub open spec fn query_item(e: NodeView, query: Seq<char>) -> Seq<NodeView>
    decreases e, 1int,
{
    let q = lowercase(query);
    if e.is_dir {
        let f = match e.children {
            Some(c) => query_list(c, q),
            None => Seq::empty(),
        };
        if f.len() == 0 {
            Seq::empty()
        } else {
            seq![NodeView { name: e.name, path: e.path, is_dir: true, children: Some(f) }]
        }
    } else if seq_contains(lowercase(e.name), q) {
        seq![e]
    } else {
        Seq::empty()
    }
}

/// The name filter of a list of entries, in order.
pub open spec fn query_list(s: Seq<NodeView>, query: Seq<char>) -> Seq<NodeView>
    decreases s, 0int,
{
    if s.len() == 0 {
        Seq::empty()
    } else {
        query_list(s.subrange(0, s.len() - 1), query) + query_item(s[s.len() - 1], query)
    }
}

proof fn lemma_query_list_push(s: Seq<NodeView>, e: NodeView, q: Seq<char>)
    ensures
        query_list(s.push(e), q) == query_list(s, q) + query_item(e, q),
{
    assert(s.push(e).subrange(0, s.len() as int) =~= s);
}

fn filter_query_entry(e: &FileNode, query: &str) -> (r: Option<FileNode>)
    ensures
        match r {
            Some(n) => query_item(node_view(*e), query@) == seq![node_view(n)],
            None => query_item(node_view(*e), query@) == Seq::<NodeView>::empty(),
        },
    decreases e,
{
    let q = to_lowercase(query);
    if e.is_dir {
        let f = match &e.children {
            Some(c) => filter_by_query(c.as_slice(), q.as_str()),
            None => Vec::new(),
        };
        proof {
            lemma_nodes_view(f@);
        }
        if f.len() == 0 {
            None
        } else {
            Some(FileNode { name: e.name.clone(), path: e.path.clone(), is_dir: true, children: Some(f) })
        }
    } else {
        let lname = to_lowercase(e.name.as_str());
        if str_contains(lname.as_str(), q.as_str()) {
            Some(copy_node(e))
        } else {
            None
        }
    }
}

/// Keeps the files whose name contains `query`, ignoring case, and the
/// directories that contain such a file at some depth.
pub fn filter_by_query(entries: &[FileNode], query: &str) -> (r: Vec<FileNode>)
    ensures
        nodes_view(r@) == query_list(nodes_view(entries@), query@),
    decreases entries@,
{
    let mut out: Vec<FileNode> = Vec::new();
    let mut i: usize = 0;
    while i < entries.len()
        invariant
            i <= entries@.len(),
            nodes_view(out@) == query_list(nodes_view(entries@.take(i as int)), query@),
        decreases entries.len() - i,
    {
        proof {
            assert(entries@.take(i + 1) =~= entries@.take(i as int).push(entries@[i as int]));
            lemma_nodes_view_push(entries@.take(i as int), entries@[i as int]);
            lemma_query_list_push(
                nodes_view(entries@.take(i as int)),
                node_view(entries@[i as int]),
                query@,
            );
        }
        let item = filter_query_entry(&entries[i], query);
        match item {
            Some(n) => {
                proof {
                    lemma_nodes_view_push(out@, n);
                }
                out.push(n);
            },
            None => {
                proof {
                    assert(query_list(nodes_view(entries@.take(i as int)), query@) + Seq::<
                        NodeView,
                    >::empty() =~= query_list(nodes_view(entries@.take(i as int)), query@));
                }
            },
        }
        i += 1;
    }
    proof {
        assert(entries@.take(entries@.len() as int) =~= entries@);
    }
    out
}

/// The tree the sidebar shows: the markdown filter of the tree, narrowed by
/// the name filter when the search text is not empty.
pub open spec fn sidebar_view(tree: Seq<NodeView>, query: Seq<char>) -> Seq<NodeView> {
    if query.len() == 0 {
        md_list(tree)
    } else {
        query_list(md_list(tree), query)
    }
}

/// The tree the sidebar shows for the search text `query`.
pub fn sidebar_tree(tree: &Vec<FileNode>, query: &str) -> (r: Vec<FileNode>)
    ensures
        nodes_view(r@) == sidebar_view(nodes_view(tree@), query@),
{
    let md = filter_md_entries(tree.as_slice());
    let q = chars_of(query);
    if q.len() == 0 {
        md
    } else {
        filter_by_query(md.as_slice(), query)
    }
}

// ---------------------------------------------------------------------------
// Directory listings
// ---------------------------------------------------------------------------

/// A directory listing keeps an entry unless its name starts with `.`, and
/// keeps a file only when its name ends with `.md`.
pub open spec fn listed(name: Seq<char>, is_dir: bool) -> bool {
    !seq_starts_with(name, "."@) && (is_dir || seq_ends_with(name, ".md"@))
}

/// Whether a directory listing keeps the entry `name`.
pub fn keep_in_listing(name: &str, is_dir: bool) -> (r: bool)
    ensures
        r == listed(name@, is_dir),
{
    if str_starts_with(name, ".") {
        return false;
    }
    is_dir || str_ends_with(name, ".md")
}

/// `a` comes before `b` in the order of code points, character by character
/// (a proper prefix comes first).
pub open spec fn lex_lt(a: Seq<char>, b: Seq<char>) -> bool
    decreases a.len(),
{
    if a.len() == 0 {
        b.len() > 0
    } else if b.len() == 0 {
        false
    } else if a[0] != b[0] {
        (a[0] as u32) < (b[0] as u32)
    } else {
        lex_lt(a.subrange(1, a.len() as int), b.subrange(1, b.len() as int))
    }
}

proof fn lemma_lex_lt(a: Seq<char>, b: Seq<char>, i: int)
    requires
        0 <= i <= a.len(),
        i <= b.len(),
        forall|j: int| 0 <= j < i ==> a[j] == b[j],
        i == a.len() || i == b.len() || a[i] != b[i],
    ensures
        lex_lt(a, b) == if i == a.len() {
            b.len() > a.len()
        } else if i == b.len() {
            false
        } else {
            (a[i] as u32) < (b[i] as u32)
        },
    decreases i,
{
    if i > 0 {
        let a1 = a.subrange(1, a.len() as int);
        let b1 = b.subrange(1, b.len() as int);
        assert forall|j: int| 0 <= j < i - 1 implies a1[j] == b1[j] by {
            assert(a[j + 1] == b[j + 1]);
        }
        lemma_lex_lt(a1, b1, i - 1);
    }
}

/// Whether `a` comes before `b` character by character.
fn chars_lex_lt(a: &[char], b: &[char]) -> (r: bool)
    ensures
        r == lex_lt(a@, b@),
{
    let mut i: usize = 0;
    while i < a.len() && i < b.len() && a[i] == b[i]
        invariant
            i <= a@.len(),
            i <= b@.len(),
            forall|j: int| 0 <= j < i ==> a@[j] == b@[j],
        decreases a.len() - i,
    {
        i += 1;
    }
    proof {
        lemma_lex_lt(a@, b@, i as int);
    }
    if i == a.len() {
        b.len() > a.len()
    } else if i == b.len() {
        false
    } else {
        (a[i] as u32) < (b[i] as u32)
    }
}

/// The listing order: `a` comes strictly before `b` when `a` is a directory
/// and `b` is not, or when both are of the same kind and `a`'s lower-cased
/// name comes first.
pub open spec fn listed_before(a: NodeView, b: NodeView) -> bool {
    if a.is_dir != b.is_dir {
        a.is_dir
    } else {
        lex_lt(lowercase(a.name), lowercase(b.name))
    }
}

/// Position at which the stable insertion puts `x` into `s`: before the
/// first entry that `x` comes strictly before, else at the end.
pub open spec fn insert_position(s: Seq<NodeView>, x: NodeView) -> int
    decreases s.len(),
{
    if s.len() == 0 {
        0
    } else if listed_before(x, s.last()) {
        insert_position(s.drop_last(), x)
    } else {
        s.len() as int
    }
}

/// The entries in listing order, equal entries in their given order
/// (the result of a stable sort).
pub open spec fn listing_sorted(s: Seq<NodeView>) -> Seq<NodeView>
    decreases s.len(),
{
    if s.len() == 0 {
        s
    } else {
        let t = listing_sorted(s.drop_last());
        t.insert(insert_position(t, s.last()), s.last())
    }
}

fn node_before(a: &FileNode, b: &FileNode) -> (r: bool)
    ensures
        r == listed_before(node_view(*a), node_view(*b)),
{
    if a.is_dir != b.is_dir {
        a.is_dir
    } else {
        let la = to_lowercase(a.name.as_str());
        let lb = to_lowercase(b.name.as_str());
        let ca = chars_of(la.as_str());
        let cb = chars_of(lb.as_str());
        chars_lex_lt(ca.as_slice(), cb.as_slice())
    }
}

proof fn lemma_insert_position_bounds(s: Seq<NodeView>, x: NodeView)
    ensures
        0 <= insert_position(s, x) <= s.len(),
    decreases s.len(),
{
    if s.len() > 0 {
        lemma_insert_position_bounds(s.drop_last(), x);
    }
}

/// The position at which stable insertion puts `x` into `v`.
fn find_insert_position(v: &Vec<FileNode>, x: &FileNode) -> (r: usize)
    ensures
        r == insert_position(nodes_view(v@), node_view(*x)),
        r <= v@.len(),
{
    proof {
        lemma_nodes_view(v@);
    }
    let mut p = v.len();
    // Scan from the end while `x` comes strictly before the entry.
    while p > 0 && node_before(x, &v[p - 1])
        invariant
            p <= v@.len(),
            nodes_view(v@).len() == v@.len(),
            forall|k: int| 0 <= k < v@.len() ==> #[trigger] nodes_view(v@)[k] == node_view(v@[k]),
            forall|k: int| p <= k < v@.len() ==> listed_before(node_view(*x), #[trigger] node_view(v@[k])),
        decreases p,
    {
        p -= 1;
    }
    proof {
        lemma_insert_position_scan(nodes_view(v@), node_view(*x), p as int);
    }
    p
}

proof fn lemma_insert_position_scan(s: Seq<NodeView>, x: NodeView, p: int)
    requires
        0 <= p <= s.len(),
        forall|k: int| p <= k < s.len() ==> listed_before(x, #[trigger] s[k]),
        p == 0 || !listed_before(x, s[p - 1]),
    ensures
        insert_position(s, x) == p,
    decreases s.len(),
{
    if s.len() > 0 {
        let d = s.drop_last();
        if p == s.len() {
            assert(!listed_before(x, s.last()));
        } else {
            assert(listed_before(x, s.last())) by {
                assert(s[s.len() - 1] == s.last());
            }
            assert forall|k: int| p <= k < d.len() implies listed_before(x, #[trigger] d[k]) by {
                assert(d[k] == s[k]);
            }
            if p > 0 {
                assert(d[p - 1] == s[p - 1]);
            }
            lemma_insert_position_scan(d, x, p);
        }
    }
}

/// Sorts the entries of a listing: directories first, then by lower-cased
/// name; entries that compare equal keep their order.
pub fn sort_listing(entries: Vec<FileNode>) -> (r: Vec<FileNode>)
    ensures
        nodes_view(r@) == listing_sorted(nodes_view(entries@)),
{
    let mut out: Vec<FileNode> = Vec::new();
    let mut i: usize = 0;
    while i < entries.len()
        invariant
            i <= entries@.len(),
            nodes_view(out@) == listing_sorted(nodes_view(entries@.take(i as int))),
        decreases entries.len() - i,
    {
        let x = copy_node(&entries[i]);
        let p = find_insert_position(&out, &x);
        let ghost before = out@;
        out.insert(p, x);
        proof {
            let s = nodes_view(entries@.take(i + 1));
            assert(entries@.take(i + 1) =~= entries@.take(i as int).push(entries@[i as int]));
            lemma_nodes_view_push(entries@.take(i as int), entries@[i as int]);
            assert(s.drop_last() =~= nodes_view(entries@.take(i as int)));
            assert(s.last() == node_view(x));
            lemma_nodes_view(before);
            lemma_nodes_view(out@);
            assert(nodes_view(out@) =~= nodes_view(before).insert(p as int, node_view(x)));
        }
        i += 1;
    }
    proof {
        assert(entries@.take(entries@.len() as int) =~= entries@);
    }
    out
}

/// Arranges the entries read from one directory into its listing: hidden
/// entries and non-markdown files left out, then sorted.
pub fn arrange_listing(entries: Vec<FileNode>) -> (r: Vec<FileNode>)
    ensures
        nodes_view(r@) == listing_sorted(
            nodes_view(entries@).filter(|e: NodeView| listed(e.name, e.is_dir)),
        ),
{
    let mut kept: Vec<FileNode> = Vec::new();
    let mut i: usize = 0;
    while i < entries.len()
        invariant
            i <= entries@.len(),
            nodes_view(kept@) == nodes_view(entries@.take(i as int)).filter(
                |e: NodeView| listed(e.name, e.is_dir),
            ),
        decreases entries.len() - i,
    {
        proof {
            assert(entries@.take(i + 1) =~= entries@.take(i as int).push(entries@[i as int]));
            lemma_nodes_view_push(entries@.take(i as int), entries@[i as int]);
            reveal(Seq::filter);
            assert(nodes_view(entries@.take(i + 1)).drop_last() =~= nodes_view(
                entries@.take(i as int),
            ));
        }
        if keep_in_listing(entries[i].name.as_str(), entries[i].is_dir) {
            let n = copy_node(&entries[i]);
            proof {
                lemma_nodes_view_push(kept@, n);
            }
            kept.push(n);
        }
        i += 1;
    }
    proof {
        assert(entries@.take(entries@.len() as int) =~= entries@);
    }
    sort_listing(kept)
}

// ---------------------------------------------------------------------------
// Laws
// ---------------------------------------------------------------------------

/// Every file the markdown filter keeps is a markdown file.
pub proof fn law_md_filter_keeps_markdown(s: Seq<NodeView>)
    ensures
        forall|i: int|
            0 <= i < md_list(s).len() && !(#[trigger] md_list(s)[i]).is_dir ==> seq_ends_with(
                md_list(s)[i].name,
                ".md"@,
            ),
    decreases s.len(),
{
    if s.len() > 0 {
        let d = s.subrange(0, s.len() - 1);
        law_md_filter_keeps_markdown(d);
        assert forall|i: int|
            0 <= i < md_list(s).len() && !(#[trigger] md_list(s)[i]).is_dir implies seq_ends_with(
            md_list(s)[i].name,
            ".md"@,
        ) by {
            if i < md_list(d).len() {
                assert(md_list(s)[i] == md_list(d)[i]);
            } else {
                assert(md_list(s)[i] == md_item(s[s.len() - 1])[i - md_list(d).len()]);
            }
        }
    }
}

/// Every directory the markdown filter keeps has children, none of them
/// empty directories.
pub proof fn law_md_filter_no_empty_dirs(s: Seq<NodeView>)
    ensures
        forall|i: int|
            0 <= i < md_list(s).len() && (#[trigger] md_list(s)[i]).is_dir ==> (md_list(
                s,
            )[i].children matches Some(c) && c.len() > 0),
    decreases s.len(),
{
    if s.len() > 0 {
        let d = s.subrange(0, s.len() - 1);
        law_md_filter_no_empty_dirs(d);
        assert forall|i: int|
            0 <= i < md_list(s).len() && (#[trigger] md_list(s)[i]).is_dir implies (md_list(
            s,
        )[i].children matches Some(c) && c.len() > 0) by {
            if i < md_list(d).len() {
                assert(md_list(s)[i] == md_list(d)[i]);
            } else {
                assert(md_list(s)[i] == md_item(s[s.len() - 1])[i - md_list(d).len()]);
            }
        }
    }
}

/// Every file the name filter keeps at the top level has a lower-cased name
/// that contains the lower-cased query, and every directory it keeps has
/// children.
pub proof fn law_query_filter_keeps_matches(s: Seq<NodeView>, query: Seq<char>)
    ensures
        forall|i: int|
            0 <= i < query_list(s, query).len() ==> {
                let e = #[trigger] query_list(s, query)[i];
                if e.is_dir {
                    e.children matches Some(c) && c.len() > 0
                } else {
                    seq_contains(lowercase(e.name), lowercase(query))
                }
            },
    decreases s.len(),
{
    if s.len() > 0 {
        let d = s.subrange(0, s.len() - 1);
        law_query_filter_keeps_matches(d, query);
        assert forall|i: int| 0 <= i < query_list(s, query).len() implies {
            let e = #[trigger] query_list(s, query)[i];
            if e.is_dir {
                e.children matches Some(c) && c.len() > 0
            } else {
                seq_contains(lowercase(e.name), lowercase(query))
            }
        } by {
            if i < query_list(d, query).len() {
                assert(query_list(s, query)[i] == query_list(d, query)[i]);
            } else {
                assert(query_list(s, query)[i] == query_item(s[s.len() - 1], query)[i - query_list(d, query).len()]);
            }
        }
    }
}

/// Filtering twice for markdown gives what filtering once gives.
pub proof fn law_md_filter_idempotent(s: Seq<NodeView>)
    ensures
        md_list(md_list(s)) == md_list(s),
    decreases s, 0int,
{
    if s.len() > 0 {
        let d = s.subrange(0, s.len() - 1);
        law_md_filter_idempotent(d);
        lemma_md_item_idempotent(s[s.len() - 1]);
        lemma_md_list_append(md_list(d), md_item(s[s.len() - 1]));
    }
}

proof fn lemma_md_item_idempotent(e: NodeView)
    ensures
        md_list(md_item(e)) == md_item(e),
    decreases e, 1int,
{
    let m = md_item(e);
    if m.len() == 1 {
        assert(m.subrange(0, 0) =~= Seq::<NodeView>::empty());
        if e.is_dir {
            let f = match e.children {
                Some(c) => md_list(c),
                None => Seq::empty(),
            };
            match e.children {
                Some(c) => {
                    law_md_filter_idempotent(c);
                },
                None => {},
            }
            assert(md_item(m[0]) == m);
        }
        assert(md_list(m) =~= md_list(m.subrange(0, 0)) + md_item(m[0]));
    }
}

proof fn lemma_md_list_append(a: Seq<NodeView>, b: Seq<NodeView>)
    ensures
        md_list(a + b) == md_list(a) + md_list(b),
    decreases b.len(),
{
    if b.len() == 0 {
        assert(a + b =~= a);
    } else {
        let b1 = b.subrange(0, b.len() - 1);
        lemma_md_list_append(a, b1);
        assert((a + b).subrange(0, (a + b).len() - 1) =~= a + b1);
        assert((a + b)[(a + b).len() - 1] == b[b.len() - 1]);
    }
}

proof fn lemma_query_list_append(a: Seq<NodeView>, b: Seq<NodeView>, q: Seq<char>)
    ensures
        query_list(a + b, q) == query_list(a, q) + query_list(b, q),
    decreases b.len(),
{
    if b.len() == 0 {
        assert(a + b =~= a);
    } else {
        let b1 = b.subrange(0, b.len() - 1);
        lemma_query_list_append(a, b1, q);
        assert((a + b).subrange(0, (a + b).len() - 1) =~= a + b1);
        assert((a + b)[(a + b).len() - 1] == b[b.len() - 1]);
    }
}

proof fn lemma_single_entry(x: NodeView, q: Seq<char>)
    ensures
        md_list(seq![x]) == md_item(x),
        query_list(seq![x], q) == query_item(x, q),
{
    let one = seq![x];
    let empty = Seq::<NodeView>::empty();
    assert(one.subrange(0, 0) =~= empty);
    assert(one[0] == x);
    assert(md_list(empty) == empty);
    assert(query_list(empty, q) == empty);
    assert(md_list(one) == md_list(empty) + md_item(x));
    assert(query_list(one, q) == query_list(empty, q) + query_item(x, q));
    assert(empty + md_item(x) =~= md_item(x));
    assert(empty + query_item(x, q) =~= query_item(x, q));
}

/// The markdown filter and the name filter commute: either order keeps the
/// markdown files whose lower-cased name contains the lower-cased query,
/// under the directories that still hold such a file.
pub proof fn law_filters_commute(s: Seq<NodeView>, query: Seq<char>)
    ensures
        query_list(md_list(s), query) == md_list(query_list(s, query)),
    decreases s, 0int,
{
    if s.len() > 0 {
        let d = s.subrange(0, s.len() - 1);
        let e = s[s.len() - 1];
        law_filters_commute(d, query);
        lemma_item_filters_commute(e, query);
        lemma_query_list_append(md_list(d), md_item(e), query);
        lemma_md_list_append(query_list(d, query), query_item(e, query));
    }
}

proof fn lemma_item_filters_commute(e: NodeView, query: Seq<char>)
    ensures
        query_list(md_item(e), query) == md_list(query_item(e, query)),
    decreases e, 1int,
{
    let q = lowercase(query);
    let empty = Seq::<NodeView>::empty();
    assert(md_list(empty) == empty);
    assert(query_list(empty, query) == empty);
    if e.is_dir {
        match e.children {
            Some(c) => {
                law_filters_commute(c, q);
                let mf = md_list(c);
                let qf = query_list(c, q);
                if mf.len() == 0 {
                    assert(query_list(mf, q) =~= empty);
                }
                if qf.len() == 0 {
                    assert(md_list(qf) =~= empty);
                }
                if mf.len() > 0 {
                    let dm = NodeView { name: e.name, path: e.path, is_dir: true, children: Some(mf) };
                    lemma_single_entry(dm, query);
                }
                if qf.len() > 0 {
                    let dq = NodeView { name: e.name, path: e.path, is_dir: true, children: Some(qf) };
                    lemma_single_entry(dq, query);
                }
            },
            None => {},
        }
    } else {
        lemma_single_entry(e, query);
    }
}

/// Whether every entry is at or after the entries before it.
pub open spec fn in_listing_order(s: Seq<NodeView>) -> bool {
    forall|i: int, j: int| 0 <= i < j < s.len() ==> !listed_before(#[trigger] s[j], #[trigger] s[i])
}

proof fn lemma_lex_asym(a: Seq<char>, b: Seq<char>)
    ensures
        lex_lt(a, b) ==> !lex_lt(b, a),
    decreases a.len(),
{
    if a.len() > 0 && b.len() > 0 && a[0] == b[0] {
        lemma_lex_asym(a.subrange(1, a.len() as int), b.subrange(1, b.len() as int));
    }
}

proof fn lemma_lex_trans(a: Seq<char>, b: Seq<char>, c: Seq<char>)
    ensures
        lex_lt(a, b) && lex_lt(b, c) ==> lex_lt(a, c),
    decreases a.len(),
{
    if a.len() > 0 && b.len() > 0 && c.len() > 0 {
        lemma_lex_trans(
            a.subrange(1, a.len() as int),
            b.subrange(1, b.len() as int),
            c.subrange(1, c.len() as int),
        );
    }
}

proof fn lemma_lex_total(a: Seq<char>, b: Seq<char>)
    ensures
        a != b ==> lex_lt(a, b) || lex_lt(b, a),
    decreases a.len(),
{
    if a.len() > 0 && b.len() > 0 {
        let a1 = a.subrange(1, a.len() as int);
        let b1 = b.subrange(1, b.len() as int);
        lemma_lex_total(a1, b1);
        if a[0] != b[0] {
            vstd::utf8::char_u32_cast(a[0], a[0] as u32);
            vstd::utf8::char_u32_cast(b[0], b[0] as u32);
        }
        if a[0] == b[0] && a1 == b1 {
            assert(a =~= seq![a[0]] + a1);
            assert(b =~= seq![b[0]] + b1);
        }
    } else if a.len() == 0 && b.len() == 0 {
        assert(a =~= b);
    }
}

/// The listing order is a strict order whose complement is transitive.
proof fn lemma_listed_before_order(a: NodeView, b: NodeView, c: NodeView)
    ensures
        listed_before(a, b) ==> !listed_before(b, a),
        !listed_before(b, a) && !listed_before(c, b) ==> !listed_before(c, a),
{
    let la = lowercase(a.name);
    let lb = lowercase(b.name);
    let lc = lowercase(c.name);
    lemma_lex_asym(la, lb);
    lemma_lex_asym(lb, la);
    lemma_lex_trans(lc, la, lb);
    lemma_lex_total(la, lb);
}

proof fn lemma_insert_position_props(t: Seq<NodeView>, x: NodeView)
    ensures
        0 <= insert_position(t, x) <= t.len(),
        forall|k: int| insert_position(t, x) <= k < t.len() ==> listed_before(x, #[trigger] t[k]),
        insert_position(t, x) > 0 ==> !listed_before(x, t[insert_position(t, x) - 1]),
    decreases t.len(),
{
    if t.len() > 0 && listed_before(x, t.last()) {
        let d = t.drop_last();
        lemma_insert_position_props(d, x);
        assert forall|k: int| insert_position(t, x) <= k < t.len() implies listed_before(x, #[trigger] t[k]) by {
            if k < t.len() - 1 {
                assert(t[k] == d[k]);
            }
        }
        if insert_position(t, x) > 0 {
            assert(t[insert_position(t, x) - 1] == d[insert_position(t, x) - 1]);
        }
    }
}

proof fn lemma_insert_keeps_order(t: Seq<NodeView>, x: NodeView)
    requires
        in_listing_order(t),
    ensures
        in_listing_order(t.insert(insert_position(t, x), x)),
{
    let p = insert_position(t, x);
    lemma_insert_position_props(t, x);
    let u = t.insert(p, x);
    assert forall|i: int, j: int| 0 <= i < j < u.len() implies !listed_before(#[trigger] u[j], #[trigger] u[i]) by {
        if j < p {
            assert(u[i] == t[i] && u[j] == t[j]);
        } else if j == p {
            assert(u[j] == x && u[i] == t[i]);
            if i < p - 1 {
                assert(!listed_before(t[p - 1], t[i]));
            }
            lemma_listed_before_order(t[i], t[p - 1], x);
        } else if i < p {
            assert(u[i] == t[i] && u[j] == t[j - 1]);
        } else if i == p {
            assert(u[i] == x && u[j] == t[j - 1]);
            assert(listed_before(x, t[j - 1]));
            lemma_listed_before_order(x, t[j - 1], x);
        } else {
            assert(u[i] == t[i - 1] && u[j] == t[j - 1]);
        }
    }
}

/// The listing holds exactly the entries it sorts (the same multiset of
/// entries), and it is in listing order: folders before files, and within
/// each kind by lower-cased name.
pub proof fn law_listing_sorted(s: Seq<NodeView>)
    ensures
        listing_sorted(s).to_multiset() == s.to_multiset(),
        listing_sorted(s).len() == s.len(),
        in_listing_order(listing_sorted(s)),
    decreases s.len(),
{
    broadcast use vstd::seq_lib::to_multiset_insert, vstd::seq_lib::to_multiset_build;
    if s.len() == 0 {
        assert(s.to_multiset() =~= vstd::multiset::Multiset::<NodeView>::empty()) by {
            broadcast use vstd::seq_lib::group_to_multiset_ensures;
        }
    } else {
        let d = s.drop_last();
        law_listing_sorted(d);
        let t = listing_sorted(d);
        lemma_insert_position_props(t, s.last());
        lemma_insert_keeps_order(t, s.last());
        assert(s =~= d.push(s.last()));
        assert(s.to_multiset() == d.to_multiset().insert(s.last()));
        assert(listing_sorted(s).to_multiset() == t.to_multiset().insert(s.last()));
        vstd::seq_lib::lemma_multiset_commutative(t, seq![s.last()]);
    }
}

} // verus!
