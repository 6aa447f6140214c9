//! The "recent files" and "recent folders" lists: most recent first, no
//! entry twice, bounded in length.
use vstd::prelude::*;

verus! {

/// The texts of a list of strings.
pub open spec fn texts(v: Seq<String>) -> Seq<Seq<char>> {
    v.map_values(|s: String| s@)
}

/// `s` with every occurrence of `x` removed, the rest in order.
pub open spec fn without(s: Seq<Seq<char>>, x: Seq<char>) -> Seq<Seq<char>>
    decreases s.len(),
{
    if s.len() == 0 {
        s
    } else if s.last() == x {
        without(s.drop_last(), x)
    } else {
        without(s.drop_last(), x).push(s.last())
    }
}

/// `s` cut to its first `cap` entries when it is longer than that.
pub open spec fn capped(s: Seq<Seq<char>>, cap: nat) -> Seq<Seq<char>> {
    if s.len() > cap {
        s.take(cap as int)
    } else {
        s
    }
}

/// The list after `path` is pushed to the front of `list`: a list whose first
/// entry is already `path` stays as it is; otherwise `path` goes first, its
/// other occurrences go, and the list is cut to `cap` entries.
pub open spec fn pushed_recent(list: Seq<Seq<char>>, path: Seq<char>, cap: nat) -> Seq<Seq<char>> {
    if list.len() > 0 && list[0] == path {
        list
    } else {
        capped(seq![path] + without(list, path), cap)
    }
}

/// Whether `list` starts with `path`.
pub open spec fn starts_with_entry(list: Seq<Seq<char>>, path: Seq<char>) -> bool {
    list.len() > 0 && list[0] == path
}

/// Whether pushing `path` with room for `cap` entries changes `list`.
pub open spec fn push_changes(list: Seq<Seq<char>>, path: Seq<char>, cap: nat) -> bool {
    pushed_recent(list, path, cap) != list
}

/// No entry occurs twice in `s`.
pub open spec fn no_duplicates(s: Seq<Seq<char>>) -> bool {
    forall|i: int, j: int| 0 <= i < j < s.len() ==> s[i] != s[j]
}

/// The entries of `s` whose flag in `keep` is set, in order.
pub open spec fn kept(s: Seq<Seq<char>>, keep: Seq<bool>) -> Seq<Seq<char>>
    decreases s.len(),
{
    if s.len() == 0 || keep.len() != s.len() {
        Seq::empty()
    } else if keep.last() {
        kept(s.drop_last(), keep.drop_last()).push(s.last())
    } else {
        kept(s.drop_last(), keep.drop_last())
    }
}

/// The list after `folder` is remembered: unchanged when it is already in
/// the list, otherwise put first and the list cut to `cap` entries.
pub open spec fn remembered(list: Seq<Seq<char>>, folder: Seq<char>, cap: nat) -> Seq<Seq<char>> {
    if list.contains(folder) {
        list
    } else {
        capped(seq![folder] + list, cap)
    }
}

proof fn lemma_texts_push(v: Seq<String>, s: String)
    ensures
        texts(v.push(s)) == texts(v).push(s@),
{
    assert(texts(v.push(s)) =~= texts(v).push(s@));
}

/// The list without `path`, keeping the order of the other entries.
fn remove_text(list: &Vec<String>, path: &String) -> (r: Vec<String>)
    ensures
        texts(r@) == without(texts(list@), path@),
{
    let mut out: Vec<String> = Vec::new();
    let mut i: usize = 0;
    while i < list.len()
        invariant
            i <= list@.len(),
            texts(out@) == without(texts(list@.take(i as int)), path@),
        decreases list.len() - i,
    {
        let ghost before = out@;
        proof {
            assert(list@.take(i + 1).drop_last() =~= list@.take(i as int));
            assert(texts(list@.take(i + 1)) =~= texts(list@.take(i as int)).push(list@[i as int]@));
            assert(texts(list@.take(i + 1)).drop_last() =~= texts(list@.take(i as int)));
        }
        if list[i] != *path {
            let s = list[i].clone();
            out.push(s);
            proof {
                lemma_texts_push(before, s);
            }
        }
        i += 1;
    }
    proof {
        assert(list@.take(list@.len() as int) =~= list@);
    }
    out
}

/// Whether two lists of strings hold the same texts in the same order.
fn same_texts(a: &Vec<String>, b: &Vec<String>) -> (same: bool)
    ensures
        same == (texts(a@) == texts(b@)),
{
    if a.len() != b.len() {
        proof {
            assert(texts(a@).len() != texts(b@).len());
        }
        return false;
    }
    let mut i: usize = 0;
    while i < a.len()
        invariant
            i <= a@.len(),
            a@.len() == b@.len(),
            forall|j: int| 0 <= j < i ==> a@[j]@ == b@[j]@,
        decreases a.len() - i,
    {
        if a[i] != b[i] {
            proof {
                assert(texts(a@)[i as int] != texts(b@)[i as int]);
            }
            return false;
        }
        i += 1;
    }
    proof {
        assert(texts(a@) =~= texts(b@));
    }
    true
}

/// Pushes `path` to the front of `list`, removes its other occurrences and
/// keeps at most `cap` entries. Returns true exactly when the list changed; a
/// list whose first entry is already `path` is left as it is.
pub fn push_recent(list: &mut Vec<String>, path: String, cap: usize) -> (changed: bool)
    ensures
        changed == push_changes(texts(old(list)@), path@, cap as nat),
        texts(final(list)@) == pushed_recent(texts(old(list)@), path@, cap as nat),
{
    if list.len() > 0 && list[0] == path {
        return false;
    }
    let mut rest = remove_text(list, &path);
    rest.insert(0, path);
    if rest.len() > cap {
        rest.truncate(cap);
    }
    proof {
        let ghost w = without(texts(old(list)@), path@);
        assert(texts(rest@) =~= capped(seq![path@] + w, cap as nat));
    }
    let changed = !same_texts(&rest, list);
    *list = rest;
    changed
}

/// Whether the file at `path` exists. The answer comes from the disk at the
/// moment of the call (`std::path::Path::exists`); nothing is claimed of it.
#[verifier::external_body]
fn path_exists(path: &str) -> bool {
    std::path::Path::new(path).exists()
}

/// Keeps the entries of `list` whose flag in `keep` is set, in order.
/// Returns whether the list changed.
pub fn retain_flagged(list: &mut Vec<String>, keep: &Vec<bool>) -> (changed: bool)
    requires
        keep@.len() == old(list)@.len(),
    ensures
        texts(final(list)@) == kept(texts(old(list)@), keep@),
        changed == (final(list)@.len() != old(list)@.len()),
{
    let mut out: Vec<String> = Vec::new();
    let mut i: usize = 0;
    while i < list.len()
        invariant
            i <= list@.len(),
            keep@.len() == list@.len(),
            texts(out@) == kept(texts(list@.take(i as int)), keep@.take(i as int)),
            out@.len() <= i,
        decreases list.len() - i,
    {
        let ghost before = out@;
        proof {
            assert(texts(list@.take(i + 1)) =~= texts(list@.take(i as int)).push(list@[i as int]@));
            assert(texts(list@.take(i + 1)).drop_last() =~= texts(list@.take(i as int)));
            assert(keep@.take(i + 1).drop_last() =~= keep@.take(i as int));
            assert(texts(list@.take(i + 1)).len() == keep@.take(i + 1).len());
        }
        if keep[i] {
            let s = list[i].clone();
            out.push(s);
            proof {
                lemma_texts_push(before, s);
            }
        }
        i += 1;
    }
    proof {
        assert(list@.take(list@.len() as int) =~= list@);
        assert(keep@.take(keep@.len() as int) =~= keep@);
    }
    let changed = out.len() != list.len();
    *list = out;
    changed
}

/// Removes the entries of `list` whose paths no longer exist on disk.
/// Returns whether the list changed. Which paths exist is read from the disk,
/// so the contract states the outcome for some set of answers.
pub fn prune_missing(list: &mut Vec<String>) -> (changed: bool)
    ensures
        exists|keep: Seq<bool>|
            keep.len() == old(list)@.len() && texts(final(list)@) == kept(
                texts(old(list)@),
                keep,
            ),
        changed == (final(list)@.len() != old(list)@.len()),
{
    let mut keep: Vec<bool> = Vec::new();
    let mut i: usize = 0;
    while i < list.len()
        invariant
            i <= list@.len(),
            keep@.len() == i,
        decreases list.len() - i,
    {
        keep.push(path_exists(list[i].as_str()));
        i += 1;
    }
    let ghost flags = keep@;
    let changed = retain_flagged(list, &keep);
    proof {
        assert(flags.len() == old(list)@.len());
    }
    changed
}

/// Puts `folder` first in `list` unless it is already there, then keeps at
/// most `cap` entries. Returns whether `folder` was new to the list, which is
/// when the caller saves the list again.
pub fn remember_recent_folder(list: &mut Vec<String>, folder: String, cap: usize) -> (changed: bool)
    ensures
        changed == !texts(old(list)@).contains(folder@),
        texts(final(list)@) == remembered(texts(old(list)@), folder@, cap as nat),
{
    let mut i: usize = 0;
    while i < list.len()
        invariant
            i <= list@.len(),
            forall|j: int| 0 <= j < i ==> list@[j]@ != folder@,
        decreases list.len() - i,
    {
        if list[i] == folder {
            proof {
                assert(texts(list@)[i as int] == folder@);
            }
            return false;
        }
        i += 1;
    }
    proof {
        assert(!texts(list@).contains(folder@)) by {
            if texts(list@).contains(folder@) {
                let j = choose|j: int| 0 <= j < texts(list@).len() && texts(list@)[j] == folder@;
                assert(list@[j]@ == folder@);
            }
        }
    }
    list.insert(0, folder);
    if list.len() > cap {
        list.truncate(cap);
    }
    proof {
        assert(texts(list@) =~= remembered(texts(old(list)@), folder@, cap as nat));
    }
    true
}

// ---------------------------------------------------------------------------
// Laws
// ---------------------------------------------------------------------------

proof fn lemma_without_not_contains(s: Seq<Seq<char>>, x: Seq<char>)
    ensures
        !without(s, x).contains(x),
        without(s, x).len() <= s.len(),
    decreases s.len(),
{
    if s.len() > 0 {
        lemma_without_not_contains(s.drop_last(), x);
        if s.last() != x {
            let w = without(s.drop_last(), x);
            assert forall|i: int| 0 <= i < w.push(s.last()).len() implies w.push(s.last())[i]
                != x by {
                if i < w.len() {
                    assert(w.push(s.last())[i] == w[i]);
                    if w[i] == x {
                        assert(w.contains(x));
                    }
                }
            }
        }
    }
}

proof fn lemma_without_elements(s: Seq<Seq<char>>, x: Seq<char>)
    ensures
        forall|y: Seq<char>| #[trigger] without(s, x).contains(y) ==> s.contains(y) && y != x,
        no_duplicates(s) ==> no_duplicates(without(s, x)),
        !s.contains(x) ==> without(s, x) == s,
    decreases s.len(),
{
    if s.len() > 0 {
        let d = s.drop_last();
        lemma_without_elements(d, x);
        lemma_without_not_contains(d, x);
        let w = without(d, x);
        assert forall|y: Seq<char>| #[trigger] without(s, x).contains(y) implies s.contains(y)
            && y != x by {
            let k = choose|k: int| 0 <= k < without(s, x).len() && without(s, x)[k] == y;
            if s.last() != x && k == w.len() {
                assert(s[s.len() - 1] == y);
            } else {
                assert(w[k] == y);
                assert(w.contains(y));
                let m = choose|m: int| 0 <= m < d.len() && d[m] == y;
                assert(s[m] == y);
            }
        }
        if no_duplicates(s) {
            assert(no_duplicates(d));
            if s.last() != x {
                assert forall|i: int, j: int| 0 <= i < j < w.push(s.last()).len() implies w.push(
                    s.last(),
                )[i] != w.push(s.last())[j] by {
                    if j == w.len() {
                        if w[i] == s.last() {
                            assert(w.contains(s.last()));
                            let m = choose|m: int| 0 <= m < d.len() && d[m] == s.last();
                            assert(s[m] == s[s.len() - 1]);
                        }
                    }
                }
            }
        }
        if !s.contains(x) {
            assert(!d.contains(x)) by {
                if d.contains(x) {
                    let m = choose|m: int| 0 <= m < d.len() && d[m] == x;
                    assert(s[m] == x);
                }
            }
            assert(s.last() != x) by {
                assert(s[s.len() - 1] == s.last());
            }
            assert(without(s, x) =~= s);
        }
    }
}

/// Pushing a path with room for at least one entry puts that path first and
/// leaves no other occurrence of it; a list that did not already start with
/// it changes and is then at most `cap` long.
pub proof fn law_push_recent_front(list: Seq<Seq<char>>, path: Seq<char>, cap: nat)
    requires
        cap > 0,
    ensures
        pushed_recent(list, path, cap)[0] == path,
        forall|i: int|
            0 < i < pushed_recent(list, path, cap).len() ==> #[trigger] pushed_recent(
                list,
                path,
                cap,
            )[i] != path || starts_with_entry(list, path),
        !starts_with_entry(list, path) ==> pushed_recent(list, path, cap).len() <= cap,
        !starts_with_entry(list, path) ==> push_changes(list, path, cap),
{
    lemma_without_not_contains(list, path);
    if !starts_with_entry(list, path) {
        let l = seq![path] + without(list, path);
        assert forall|i: int| 0 < i < capped(l, cap).len() implies #[trigger] capped(l, cap)[i]
            != path by {
            assert(capped(l, cap)[i] == without(list, path)[i - 1]);
            if without(list, path)[i - 1] == path {
                assert(without(list, path).contains(path));
            }
        }
    }
}

/// Pushing the same path twice: the second push changes nothing.
pub proof fn law_push_recent_idempotent(list: Seq<Seq<char>>, path: Seq<char>, cap: nat)
    requires
        cap > 0,
    ensures
        starts_with_entry(pushed_recent(list, path, cap), path),
        !push_changes(pushed_recent(list, path, cap), path, cap),
        pushed_recent(pushed_recent(list, path, cap), path, cap) == pushed_recent(list, path, cap),
{
    law_push_recent_front(list, path, cap);
}

/// A list without duplicates stays without duplicates after a push.
pub proof fn law_push_recent_keeps_distinct(list: Seq<Seq<char>>, path: Seq<char>, cap: nat)
    requires
        no_duplicates(list),
    ensures
        no_duplicates(pushed_recent(list, path, cap)),
{
    if !starts_with_entry(list, path) {
        lemma_without_elements(list, path);
        lemma_without_not_contains(list, path);
        let w = without(list, path);
        let l = seq![path] + w;
        assert(no_duplicates(l)) by {
            assert forall|i: int, j: int| 0 <= i < j < l.len() implies l[i] != l[j] by {
                if i == 0 {
                    assert(l[j] == w[j - 1]);
                    if w[j - 1] == path {
                        assert(w.contains(path));
                    }
                } else {
                    assert(l[i] == w[i - 1] && l[j] == w[j - 1]);
                }
            }
        }
        assert(no_duplicates(capped(l, cap)));
    }
}

/// Pushing keeps every other entry that fits: the entries after the first are
/// the old entries other than `path`, in their old order.
pub proof fn law_push_recent_keeps_order(list: Seq<Seq<char>>, path: Seq<char>, cap: nat)
    requires
        !starts_with_entry(list, path),
        cap > list.len(),
    ensures
        pushed_recent(list, path, cap) == seq![path] + without(list, path),
{
    lemma_without_not_contains(list, path);
}

/// Remembering a folder that is already listed changes nothing, and a
/// remembered folder is listed afterwards when there is room for one entry.
pub proof fn law_remember_folder(list: Seq<Seq<char>>, folder: Seq<char>, cap: nat)
    requires
        cap > 0,
    ensures
        remembered(list, folder, cap).contains(folder),
        remembered(remembered(list, folder, cap), folder, cap) == remembered(list, folder, cap),
{
    if !list.contains(folder) {
        let l = capped(seq![folder] + list, cap);
        assert(l[0] == folder);
    }
}

/// Retaining with every flag set leaves the list as it is.
pub proof fn law_retain_all_kept(s: Seq<Seq<char>>, keep: Seq<bool>)
    requires
        keep.len() == s.len(),
        forall|i: int| 0 <= i < keep.len() ==> keep[i],
    ensures
        kept(s, keep) == s,
    decreases s.len(),
{
    if s.len() > 0 {
        law_retain_all_kept(s.drop_last(), keep.drop_last());
        assert(keep.last() == keep[keep.len() - 1]);
        assert(kept(s, keep) =~= s.drop_last().push(s.last()));
    }
}

} // verus!
