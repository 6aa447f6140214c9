//! Bookkeeping of the windows that show single files: which window label
//! belongs to which file path, and the address and title of a new window.
use vstd::prelude::*;
use crate::paths::{file_name_of, parent_of, path_file_name, path_key, path_key_of, path_parent};
use crate::recent::{push_changes, push_recent, pushed_recent, texts};
use crate::text::{chars_of, concat, seq_starts_with, string_from_range};

verus! {

/// The key-to-label pairs as a map; a later pair for the same key wins.
pub open spec fn pairs_map(s: Seq<(String, String)>) -> Map<Seq<char>, Seq<char>>
    decreases s.len(),
{
    if s.len() == 0 {
        Map::empty()
    } else {
        pairs_map(s.drop_last()).insert(s.last().0@, s.last().1@)
    }
}

/// No path occurs twice among the pairs.
pub open spec fn distinct_keys(s: Seq<(String, String)>) -> bool {
    forall|i: int, j: int| 0 <= i < j < s.len() ==> s[i].0@ != s[j].0@
}

/// `m` without the paths whose label is `label`.
pub open spec fn without_label(m: Map<Seq<char>, Seq<char>>, label: Seq<char>) -> Map<Seq<char>, Seq<char>> {
    Map::new(|k: Seq<char>| m.contains_key(k) && m[k] != label, |k: Seq<char>| m[k])
}

/// The map from file paths to the labels of the windows that show them.
/// Paths are compared as `std::path::Path` compares them: the map is keyed
/// by `path_key`, so `/a/b`, `/a//b` and `/a/b/` are one path.
pub struct FileWindows {
    entries: Vec<(String, String)>,
}

impl View for FileWindows {
    type V = Map<Seq<char>, Seq<char>>;

    closed spec fn view(&self) -> Map<Seq<char>, Seq<char>> {
        pairs_map(self.entries@)
    }
}

proof fn lemma_pairs_map_keys(s: Seq<(String, String)>)
    ensures
        forall|k: Seq<char>|
            #[trigger] pairs_map(s).contains_key(k) <==> exists|i: int|
                0 <= i < s.len() && s[i].0@ == k,
    decreases s.len(),
{
    if s.len() > 0 {
        lemma_pairs_map_keys(s.drop_last());
        assert forall|k: Seq<char>| #[trigger] pairs_map(s).contains_key(k) implies exists|i: int|
            0 <= i < s.len() && s[i].0@ == k by {
            if k == s.last().0@ {
                assert(s[s.len() - 1].0@ == k);
            } else {
                let d = s.drop_last();
                assert(pairs_map(d).contains_key(k));
                let i = choose|i: int| 0 <= i < d.len() && d[i].0@ == k;
                assert(s[i] == d[i]);
            }
        }
        assert forall|k: Seq<char>|
            (exists|i: int| 0 <= i < s.len() && s[i].0@ == k) implies #[trigger] pairs_map(
            s,
        ).contains_key(k) by {
            let i = choose|i: int| 0 <= i < s.len() && s[i].0@ == k;
            if i < s.len() - 1 {
                let d = s.drop_last();
                assert(d[i] == s[i]);
                assert(exists|i: int| 0 <= i < d.len() && d[i].0@ == k);
                assert(pairs_map(d).contains_key(k));
            }
        }
    }
}

proof fn lemma_pairs_map_value(s: Seq<(String, String)>, i: int)
    requires
        distinct_keys(s),
        0 <= i < s.len(),
    ensures
        pairs_map(s).contains_key(s[i].0@),
        pairs_map(s)[s[i].0@] == s[i].1@,
    decreases s.len(),
{
    if i < s.len() - 1 {
        let d = s.drop_last();
        assert(d[i] == s[i]);
        lemma_pairs_map_value(d, i);
        assert(s[i].0@ != s[s.len() - 1].0@);
    }
}

proof fn lemma_pairs_map_push(s: Seq<(String, String)>, p: (String, String))
    ensures
        pairs_map(s.push(p)) == pairs_map(s).insert(p.0@, p.1@),
{
    assert(s.push(p).drop_last() =~= s);
}

impl FileWindows {
    /// No path is recorded twice.
    #[verifier::type_invariant]
    closed spec fn well_formed(&self) -> bool {
        distinct_keys(self.entries@)
    }

    /// An empty map.
    pub fn new() -> (r: Self)
        ensures
            r@ == Map::<Seq<char>, Seq<char>>::empty(),
    {
        FileWindows { entries: Vec::new() }
    }

    /// The label of the window that shows `path`, if one is recorded.
    pub fn get(&self, path: &str) -> (r: Option<String>)
        ensures
            r is Some <==> self@.contains_key(path_key(path@)),
            r matches Some(label) ==> label@ == self@[path_key(path@)],
    {
        let key = path_key_of(path);
        proof {
            use_type_invariant(self);
            lemma_pairs_map_keys(self.entries@);
        }
        let mut i: usize = 0;
        while i < self.entries.len()
            invariant
                i <= self.entries@.len(),
                forall|j: int| 0 <= j < i ==> self.entries@[j].0@ != key@,
                key@ == path_key(path@),
                distinct_keys(self.entries@),
            decreases self.entries.len() - i,
        {
            if crate::text::str_equal(self.entries[i].0.as_str(), key.as_str()) {
                proof {
                    lemma_pairs_map_value(self.entries@, i as int);
                }
                return Some(self.entries[i].1.clone());
            }
            i += 1;
        }
        None
    }

    /// Records that the window labelled `label` shows `path`, replacing any
    /// earlier record for that path.
    pub fn insert(&mut self, path: String, label: String)
        ensures
            final(self)@ == old(self)@.insert(path_key(path@), label@),
    {
        let key = path_key_of(path.as_str());
        proof {
            use_type_invariant(&*self);
        }
        let ghost old_entries = self.entries@;
        let mut out: Vec<(String, String)> = Vec::new();
        let mut i: usize = 0;
        while i < self.entries.len()
            invariant
                i <= self.entries@.len(),
                self.entries@ == old_entries,
                distinct_keys(old_entries),
                distinct_keys(out@),
                forall|j: int| 0 <= j < out@.len() ==> out@[j].0@ != key@,
                forall|j: int|
                    #![trigger out@[j]] 0 <= j < out@.len() ==> exists|k: int| 0 <= k < i && out@[j] == #[trigger] old_entries[k],
                pairs_map(out@) == pairs_map(old_entries.take(i as int)).remove(key@),
            decreases self.entries.len() - i,
        {
            let ghost before = out@;
            proof {
                assert(old_entries.take(i + 1).drop_last() =~= old_entries.take(i as int));
            }
            if !crate::text::str_equal(self.entries[i].0.as_str(), key.as_str()) {
                let pair = (self.entries[i].0.clone(), self.entries[i].1.clone());
                out.push(pair);
                proof {
                    lemma_pairs_map_push(before, pair);
                    assert forall|a: int, b: int| 0 <= a < b < out@.len() implies out@[a].0@
                        != out@[b].0@ by {
                        if b == out@.len() - 1 {
                            let k = choose|k: int| 0 <= k < i && before[a] == old_entries[k];
                            assert(out@[a] == before[a]);
                        }
                    }
                    assert forall|j: int| #![trigger out@[j]] 0 <= j < out@.len() implies exists|k: int|
                        0 <= k < i + 1 && out@[j] == #[trigger] old_entries[k] by {
                        if j < out@.len() - 1 {
                            let k = choose|k: int| 0 <= k < i && before[j] == old_entries[k];
                            assert(out@[j] == old_entries[k]);
                        } else {
                            assert(out@[j] == old_entries[i as int]);
                        }
                    }
                    assert(pairs_map(out@) =~= pairs_map(old_entries.take(i + 1)).remove(key@));
                }
            } else {
                proof {
                    assert(pairs_map(out@) =~= pairs_map(old_entries.take(i + 1)).remove(key@));
                }
            }
            i += 1;
        }
        let ghost before = out@;
        let pair = (key, label);
        out.push(pair);
        proof {
            lemma_pairs_map_push(before, pair);
            assert(old_entries.take(old_entries.len() as int) =~= old_entries);
            assert(pairs_map(out@) =~= pairs_map(old_entries).insert(pair.0@, pair.1@));
            assert forall|a: int, b: int| 0 <= a < b < out@.len() implies out@[a].0@
                != out@[b].0@ by {
                if b == out@.len() - 1 {
                    assert(out@[a] == before[a]);
                }
            }
        }
        self.entries = out;
    }

    /// Forgets every path whose window has the label `label`.
    pub fn remove_by_label(&mut self, label: &str)
        ensures
            final(self)@ == without_label(old(self)@, label@),
    {
        proof {
            use_type_invariant(&*self);
        }
        let ghost old_entries = self.entries@;
        let ghost m = Map::new(
            |k: Seq<char>| pairs_map(old_entries).contains_key(k) && pairs_map(old_entries)[k]
                != label@,
            |k: Seq<char>| pairs_map(old_entries)[k],
        );
        let mut out: Vec<(String, String)> = Vec::new();
        let mut i: usize = 0;
        while i < self.entries.len()
            invariant
                i <= self.entries@.len(),
                self.entries@ == old_entries,
                distinct_keys(old_entries),
                distinct_keys(out@),
                forall|j: int|
                    #![trigger out@[j]] 0 <= j < out@.len() ==> exists|k: int| 0 <= k < i && out@[j] == #[trigger] old_entries[k],
                forall|j: int| 0 <= j < out@.len() ==> out@[j].1@ != label@,
                forall|k: int|
                    #![trigger old_entries[k]] 0 <= k < i && old_entries[k].1@ != label@ ==> exists|j: int|
                        0 <= j < out@.len() && #[trigger] out@[j] == old_entries[k],
            decreases self.entries.len() - i,
        {
            let ghost before = out@;
            if !crate::text::str_equal(self.entries[i].1.as_str(), label) {
                let pair = (self.entries[i].0.clone(), self.entries[i].1.clone());
                out.push(pair);
                proof {
                    assert forall|a: int, b: int| 0 <= a < b < out@.len() implies out@[a].0@
                        != out@[b].0@ by {
                        if b == out@.len() - 1 {
                            let k = choose|k: int| 0 <= k < i && before[a] == old_entries[k];
                            assert(out@[a] == before[a]);
                        }
                    }
                    assert forall|j: int| #![trigger out@[j]] 0 <= j < out@.len() implies exists|k: int|
                        0 <= k < i + 1 && out@[j] == #[trigger] old_entries[k] by {
                        if j < out@.len() - 1 {
                            let k = choose|k: int| 0 <= k < i && before[j] == old_entries[k];
                            assert(out@[j] == old_entries[k]);
                        } else {
                            assert(out@[j] == old_entries[i as int]);
                        }
                    }
                    assert forall|k: int|
                        #![trigger old_entries[k]] 0 <= k < i + 1 && old_entries[k].1@ != label@ implies exists|j: int|
                        0 <= j < out@.len() && #[trigger] out@[j] == old_entries[k] by {
                        if k < i {
                            let j = choose|j: int| 0 <= j < before.len() && before[j] == old_entries[k];
                            assert(out@[j] == old_entries[k]);
                        } else {
                            assert(out@[out@.len() - 1] == old_entries[k]);
                        }
                    }
                }
            }
            i += 1;
        }
        proof {
            lemma_pairs_map_keys(out@);
            lemma_pairs_map_keys(old_entries);
            assert forall|k: Seq<char>| #[trigger] pairs_map(out@).contains_key(k) == m.contains_key(k) by {
                if pairs_map(out@).contains_key(k) {
                    let j = choose|j: int| 0 <= j < out@.len() && out@[j].0@ == k;
                    let o = choose|o: int| 0 <= o < old_entries.len() && out@[j] == old_entries[o];
                    lemma_pairs_map_value(old_entries, o);
                }
                if m.contains_key(k) {
                    let o = choose|o: int| 0 <= o < old_entries.len() && old_entries[o].0@ == k;
                    lemma_pairs_map_value(old_entries, o);
                    let j = choose|j: int| 0 <= j < out@.len() && out@[j] == old_entries[o];
                }
            }
            assert forall|k: Seq<char>| #[trigger] pairs_map(out@).contains_key(k) implies pairs_map(
                out@,
            )[k] == m[k] by {
                let j = choose|j: int| 0 <= j < out@.len() && out@[j].0@ == k;
                let o = choose|o: int| 0 <= o < old_entries.len() && out@[j] == old_entries[o];
                lemma_pairs_map_value(old_entries, o);
                lemma_pairs_map_value(out@, j);
            }
            assert(pairs_map(out@) =~= m);
        }
        self.entries = out;
    }
}

/// The address that a single-file window opens: `/file?path=` followed by the
/// URL-encoded path.
pub open spec fn file_window_url(path: Seq<char>) -> Seq<char> {
    "/file?path="@ + url_encoded(path)
}

/// The digit of a number below sixteen, upper-case, as `urlencoding` writes it.
pub open spec fn hex_digit(n: u8) -> char {
    if n < 10 {
        (48 + n) as char
    } else {
        (55 + n) as char
    }
}

/// Whether `urlencoding::encode` keeps a byte as it is: ASCII letters and
/// digits, and `-`, `_`, `.`, `~`.
pub open spec fn url_unreserved(b: u8) -> bool {
    (48 <= b && b <= 57) || (65 <= b && b <= 90) || (97 <= b && b <= 122) || b == 45 || b == 95 || b
        == 46 || b == 126
}

/// Bytes percent-encoded: a kept byte as its character, any other as `%`
/// and its two upper-case hex digits.
pub open spec fn percent_encoded(bytes: Seq<u8>) -> Seq<char>
    decreases bytes.len(),
{
    if bytes.len() == 0 {
        Seq::empty()
    } else {
        let b = bytes.last();
        percent_encoded(bytes.drop_last()) + if url_unreserved(b) {
            seq![b as char]
        } else {
            seq!['%', hex_digit(b / 16), hex_digit(b % 16)]
        }
    }
}

/// What `urlencoding::encode` gives for a text: its UTF-8 bytes
/// percent-encoded.
pub open spec fn url_encoded(s: Seq<char>) -> Seq<char> {
    percent_encoded(vstd::utf8::encode_utf8(s))
}

/// `urlencoding::encode`: percent-encodes the UTF-8 bytes of the text other
/// than ASCII letters, digits and `-_.~`, as its documentation and source
/// say. Claimed: the result is `url_encoded` of the input.
#[verifier::external_body]
fn url_encode(s: &str) -> (r: String)
    ensures
        r@ == url_encoded(s@),
{
    urlencoding::encode(s).into_owned()
}

/// The address of the window that shows the file at `path`.
pub fn file_window_url_for(path: &str) -> (r: String)
    ensures
        r@ == file_window_url(path@),
{
    let encoded = url_encode(path);
    proof {
        reveal_strlit("/file?path=");
    }
    concat("/file?path=", encoded.as_str())
}

/// The label of a single-file window made from a fresh unique id.
pub fn file_window_label(unique_id: &str) -> (r: String)
    ensures
        r@ == "file-"@ + unique_id@,
{
    concat("file-", unique_id)
}

/// The title of the window that shows `path`: the path's last component, or
/// `Untitled` when it has none.
pub fn file_window_title(path: &str) -> (r: String)
    ensures
        r@ == match crate::paths::path_file_name(path@) {
            Some(n) => n,
            None => "Untitled"@,
        },
{
    match file_name_of(path) {
        Some(n) => n,
        None => String::from_str("Untitled"),
    }
}


/// The most recent files remembered.
pub const RECENT_FILES_CAP: usize = 10;

/// The most recent folders remembered.
pub const RECENT_FOLDERS_CAP: usize = 10;

/// What a new single-file window is made with: its label, address and title.
#[derive(Debug)]
pub struct NewFileWindow {
    pub label: String,
    pub url: String,
    pub title: String,
}

/// The new window for the file at the canonical path `path`, labelled with a
/// fresh unique id.
pub fn new_file_window(path: &str, unique_id: &str) -> (r: NewFileWindow)
    ensures
        r.label@ == "file-"@ + unique_id@,
        r.url@ == file_window_url(path@),
        r.title@ == match crate::paths::path_file_name(path@) {
            Some(n) => n,
            None => "Untitled"@,
        },
{
    NewFileWindow {
        label: file_window_label(unique_id),
        url: file_window_url_for(path),
        title: file_window_title(path),
    }
}

/// The answer when the file to open does not exist.
pub fn file_not_found(path: &str) -> (r: String)
    ensures
        r@ == "File not found: "@ + path@,
{
    concat("File not found: ", path)
}

/// The answer when the file to open is not UTF-8 text.
pub fn unreadable_file(reason: &str) -> (r: String)
    ensures
        r@ == "Cannot read file as UTF-8: "@ + reason@,
{
    concat("Cannot read file as UTF-8: ", reason)
}

/// A window was opened for the file at `path` with `label`: the window is
/// recorded for the path, and the file goes first among the recent files.
/// Returns whether the recent files changed (and so must be saved).
pub fn record_opened_file(windows: &mut FileWindows, recent_files: &mut Vec<String>, path: String, label: String) -> (changed: bool)
    ensures
        final(windows)@ == old(windows)@.insert(path_key(path@), label@),
        changed == push_changes(texts(old(recent_files)@), path@, RECENT_FILES_CAP as nat),
        texts(final(recent_files)@) == pushed_recent(texts(old(recent_files)@), path@, RECENT_FILES_CAP as nat),
{
    windows.insert(path.clone(), label);
    push_recent(recent_files, path, RECENT_FILES_CAP)
}

/// Where the main window opens a file: the folder that holds it and the
/// file's name (empty when the path has none), or an error when the path has
/// no parent.
pub fn folder_window_target(path: &str) -> (r: Result<(String, String), String>)
    ensures
        match path_parent(path@) {
            None => r matches Err(m) && m@ == "File has no parent directory"@,
            Some(parent) => r matches Ok((folder, file)) && folder@ == parent && file@ == match path_file_name(
                path@,
            ) {
                Some(n) => n,
                None => Seq::<char>::empty(),
            },
        },
{
    let parent = match parent_of(path) {
        None => return Err(String::from_str("File has no parent directory")),
        Some(p) => p,
    };
    let file = match file_name_of(path) {
        Some(n) => n,
        None => String::new(),
    };
    Ok((parent, file))
}


/// The value of the `path` parameter in the query part `search` of a
/// window's address, still percent-encoded: the leading `?`s are dropped,
/// the rest is split at `&`, and the first piece that starts with `path=`
/// gives the text after it.
pub open spec fn path_param_spec(search: Seq<char>) -> Option<Seq<char>> {
    path_param_from(search.skip(leading_question_marks(search)), 0)
}

/// The number of `?` that `search` starts with.
pub open spec fn leading_question_marks(s: Seq<char>) -> int
    decreases s.len(),
{
    if s.len() > 0 && s[0] == '?' {
        1 + leading_question_marks(s.drop_first())
    } else {
        0
    }
}

/// The `path` parameter among the `&`-separated pieces of `s[start..]`.
pub open spec fn path_param_from(s: Seq<char>, start: int) -> Option<Seq<char>>
    decreases s.len() - start,
{
    if start < 0 || start > s.len() {
        None
    } else {
        let e = crate::text::next_char(s, start, '&');
        proof {
            crate::text::lemma_next_char_bounds(s, start, '&');
        }
        let piece = s.subrange(start, e);
        if seq_starts_with(piece, "path="@) {
            Some(piece.skip(5))
        } else if e >= s.len() {
            None
        } else {
            path_param_from(s, e + 1)
        }
    }
}

proof fn lemma_leading_question_marks(s: Seq<char>)
    ensures
        0 <= leading_question_marks(s) <= s.len(),
    decreases s.len(),
{
    if s.len() > 0 && s[0] == '?' {
        lemma_leading_question_marks(s.drop_first());
    }
}

/// The still-encoded `path` parameter of a window's query part.
pub fn path_param(search: &str) -> (r: Option<String>)
    ensures
        match path_param_spec(search@) {
            None => r is None,
            Some(p) => r matches Some(t) && t@ == p,
        },
{
    let cs = chars_of(search);
    let mut q: usize = 0;
    proof {
        assert(cs@.skip(0) =~= cs@);
    }
    while q < cs.len() && cs[q] == '?'
        invariant
            q <= cs@.len(),
            cs@ == search@,
            leading_question_marks(cs@) == q + leading_question_marks(cs@.skip(q as int)),
        decreases cs.len() - q,
    {
        proof {
            assert(cs@.skip(q as int).drop_first() =~= cs@.skip(q + 1));
        }
        q += 1;
    }
    proof {
        assert(leading_question_marks(cs@.skip(q as int)) == 0);
    }
    let t = string_from_range(cs.as_slice(), q, cs.len());
    let ts = chars_of(t.as_str());
    let mut start: usize = 0;
    let prefix = chars_of("path=");
    proof {
        reveal_strlit("path=");
    }
    loop
        invariant
            start <= ts@.len(),
            ts@ == search@.skip(leading_question_marks(search@)),
            prefix@ == "path="@,
            prefix@.len() == 5,
            path_param_spec(search@) == path_param_from(ts@, start as int),
        decreases ts@.len() - start,
    {
        let mut e = start;
        while e < ts.len() && ts[e] != '&'
            invariant
                start <= e <= ts@.len(),
                forall|j: int| start <= j < e ==> #[trigger] ts@[j] != '&',
            decreases ts.len() - e,
        {
            e += 1;
        }
        proof {
            crate::text::lemma_next_char(ts@, start as int, '&', e as int);
        }
        let piece = string_from_range(ts.as_slice(), start, e);
        let pc = chars_of(piece.as_str());
        if crate::text::chars_occur_at(pc.as_slice(), prefix.as_slice(), 0) {
            proof {
                assert(seq_starts_with(pc@, "path="@));
            }
            return Some(string_from_range(pc.as_slice(), 5, pc.len()));
        }
        if e >= ts.len() {
            return None;
        }
        start = e + 1;
    }
}

/// Whether a character can come out of percent-encoding: a kept character
/// or a part of a `%XX` escape. `&` cannot.
proof fn lemma_percent_encoded_no_amp(bytes: Seq<u8>)
    ensures
        forall|i: int| 0 <= i < percent_encoded(bytes).len() ==> #[trigger] percent_encoded(bytes)[i] != '&',
    decreases bytes.len(),
{
    if bytes.len() > 0 {
        let b = bytes.last();
        lemma_percent_encoded_no_amp(bytes.drop_last());
        let head = percent_encoded(bytes.drop_last());
        let tail: Seq<char> = if url_unreserved(b) {
            seq![b as char]
        } else {
            seq!['%', hex_digit(b / 16), hex_digit(b % 16)]
        };
        assert(percent_encoded(bytes) == head + tail);
        assert(b / 16 < 16 && b % 16 < 16);
        assert forall|i: int| 0 <= i < tail.len() implies tail[i] != '&' by {
            if url_unreserved(b) {
                assert(b != 38);
                assert((b as char) != '&') by {
                    assert(b != 38u8);
                }
            }
        }
        assert forall|i: int| 0 <= i < (head + tail).len() implies (head + tail)[i] != '&' by {
            if i < head.len() {
                assert((head + tail)[i] == head[i]);
            } else {
                assert((head + tail)[i] == tail[i - head.len()]);
            }
        }
    }
}

// ---------------------------------------------------------------------------
// Laws
// ---------------------------------------------------------------------------

/// After recording `label` under a path's key, looking up that key (so any
/// path with the same key) gives `label`.
pub proof fn law_get_after_insert(m: Map<Seq<char>, Seq<char>>, path: Seq<char>, label: Seq<char>)
    ensures
        m.insert(path, label).contains_key(path),
        m.insert(path, label)[path] == label,
{
}

/// After `remove_by_label(label)`, no path maps to `label`, and every path
/// with another label keeps it.
pub proof fn law_remove_by_label(m: Map<Seq<char>, Seq<char>>, label: Seq<char>)
    ensures
        forall|k: Seq<char>|
            #[trigger] without_label(m, label).contains_key(k) ==> without_label(m, label)[k]
                != label && m.contains_key(k) && without_label(m, label)[k] == m[k],
        forall|k: Seq<char>|
            m.contains_key(k) && m[k] != label ==> #[trigger] without_label(m, label).contains_key(
                k,
            ),
{
}


/// A file window finds the file it was opened for: the query part of the
/// address it is given (`?` and what follows it) yields, as its `path`
/// parameter, the path as it was encoded into the address.
pub proof fn law_window_path_read_back(path: Seq<char>)
    ensures
        path_param_spec(file_window_url(path).skip(5)) == Some(url_encoded(path)),
{
    reveal_strlit("/file?path=");
    reveal_strlit("?path=");
    reveal_strlit("path=");
    let enc = url_encoded(path);
    lemma_percent_encoded_no_amp(vstd::utf8::encode_utf8(path));
    let search = file_window_url(path).skip(5);
    assert(search =~= "?path="@ + enc);
    assert(search.drop_first() =~= "path="@ + enc);
    assert(leading_question_marks(search.drop_first()) == 0);
    assert(leading_question_marks(search) == 1);
    let t = search.skip(1);
    assert(t =~= "path="@ + enc);
    assert forall|j: int| 0 <= j < t.len() implies #[trigger] t[j] != '&' by {
        if j >= 5 {
            assert(t[j] == enc[j - 5]);
        }
    }
    crate::text::lemma_next_char(t, 0, '&', t.len() as int);
    assert(t.subrange(0, t.len() as int) =~= t);
    assert(t.take(5) =~= "path="@);
    assert(t.skip(5) =~= enc);
}

} // verus!
