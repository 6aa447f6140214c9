//! Path texts: last components, stems, parents, joining, and the segments
//! that the breadcrumb shows.
use vstd::prelude::*;
use crate::text::{chars_of, string_from_range, concat, append_str, seq_starts_with};

verus! {

/// The last component of a path as `std::path::Path::file_name` gives it.
pub uninterp spec fn path_file_name(path: Seq<char>) -> Option<Seq<char>>;

/// The parent of a path as `std::path::Path::parent` gives it.
pub uninterp spec fn path_parent(path: Seq<char>) -> Option<Seq<char>>;

/// `std::path::Path::file_name`: the final component of the path, `None`
/// when the path ends in `..` or is a root. Claimed: the result is
/// `path_file_name` of the input.
#[verifier::external_body]
pub(crate) fn file_name_of(path: &str) -> (r: Option<String>)
    ensures
        r matches Some(n) ==> path_file_name(path@) == Some(n@),
        r is None ==> path_file_name(path@) is None,
{
    std::path::Path::new(path).file_name().map(|n| n.to_string_lossy().into_owned())
}

/// `std::path::Path::parent`: the path without its final component, `None`
/// for a root or an empty path. Claimed: the result is `path_parent` of the
/// input.
#[verifier::external_body]
pub(crate) fn parent_of(path: &str) -> (r: Option<String>)
    ensures
        r matches Some(n) ==> path_parent(path@) == Some(n@),
        r is None ==> path_parent(path@) is None,
{
    std::path::Path::new(path).parent().map(|p| p.to_string_lossy().into_owned())
}

/// Index just after the last `c` in `s`, or 0 when there is none.
pub open spec fn after_last(s: Seq<char>, c: char) -> int
    decreases s.len(),
{
    if s.len() == 0 {
        0
    } else if s.last() == c {
        s.len() as int
    } else {
        after_last(s.drop_last(), c)
    }
}

/// The text after the last `/` (the whole text when there is no `/`).
pub open spec fn last_segment(path: Seq<char>) -> Seq<char> {
    path.subrange(after_last(path, '/'), path.len() as int)
}

/// A file name without its extension: the text before the last `.`, or the
/// whole name when it has no `.`.
pub open spec fn stem(name: Seq<char>) -> Seq<char> {
    if after_last(name, '.') == 0 {
        name
    } else {
        name.subrange(0, after_last(name, '.') - 1)
    }
}

/// The text before the last `/`, or empty when there is none.
pub open spec fn before_last_slash(path: Seq<char>) -> Seq<char> {
    if after_last(path, '/') == 0 {
        Seq::empty()
    } else {
        path.subrange(0, after_last(path, '/') - 1)
    }
}

proof fn lemma_after_last(s: Seq<char>, c: char, k: int)
    requires
        0 <= k <= s.len(),
        forall|j: int| k <= j < s.len() ==> #[trigger] s[j] != c,
        k == 0 || s[k - 1] == c,
    ensures
        after_last(s, c) == k,
    decreases s.len(),
{
    if s.len() > 0 && k < s.len() {
        assert(s.last() == s[s.len() - 1]);
        let d = s.drop_last();
        assert forall|j: int| k <= j < d.len() implies #[trigger] d[j] != c by {
            assert(d[j] == s[j]);
        }
        if k > 0 {
            assert(d[k - 1] == s[k - 1]);
        }
        lemma_after_last(d, c, k);
    }
}

/// Index just after the last `c` in `cs`, or 0 when there is none.
pub(crate) fn find_after_last(cs: &[char], c: char) -> (r: usize)
    ensures
        r == after_last(cs@, c),
        r <= cs@.len(),
{
    let mut k = cs.len();
    while k > 0 && cs[k - 1] != c
        invariant
            k <= cs@.len(),
            forall|j: int| k <= j < cs@.len() ==> #[trigger] cs@[j] != c,
        decreases k,
    {
        k -= 1;
    }
    proof {
        lemma_after_last(cs@, c, k as int);
    }
    k
}

/// The file name shown for a path: the text after its last `/`.
pub fn filename_from_path(path: &str) -> (r: String)
    ensures
        r@ == last_segment(path@),
{
    let cs = chars_of(path);
    let k = find_after_last(cs.as_slice(), '/');
    string_from_range(cs.as_slice(), k, cs.len())
}

/// A file name without its extension.
pub fn stem_from_filename(name: &str) -> (r: String)
    ensures
        r@ == stem(name@),
{
    let cs = chars_of(name);
    let k = find_after_last(cs.as_slice(), '.');
    if k == 0 {
        string_from_range(cs.as_slice(), 0, cs.len())
    } else {
        string_from_range(cs.as_slice(), 0, k - 1)
    }
}

/// The default name of an HTML export of the file at `path`: its stem
/// followed by `.html`.
pub fn export_default_name(path: &str) -> (r: String)
    ensures
        r@ == stem(last_segment(path@)) + ".html"@,
{
    let name = filename_from_path(path);
    let s = stem_from_filename(name.as_str());
    concat(s.as_str(), ".html")
}

/// The file name and the parent directory of a path, split at its last `/`.
pub fn file_name_and_parent(path: &str) -> (r: (String, String))
    ensures
        r.0@ == last_segment(path@),
        r.1@ == before_last_slash(path@),
{
    let cs = chars_of(path);
    let k = find_after_last(cs.as_slice(), '/');
    let name = string_from_range(cs.as_slice(), k, cs.len());
    let parent = if k == 0 {
        String::new()
    } else {
        string_from_range(cs.as_slice(), 0, k - 1)
    };
    (name, parent)
}

/// `base` with the relative component `comp` appended, as
/// `std::path::PathBuf::push` joins them: a `/` goes between them unless
/// `base` is empty or already ends with `/`.
pub open spec fn joined(base: Seq<char>, comp: Seq<char>) -> Seq<char> {
    if base.len() == 0 || base.last() == '/' {
        base + comp
    } else {
        base + "/"@ + comp
    }
}

/// Joins the relative component `comp` to `base`.
pub fn join_path(base: &str, comp: &str) -> (r: String)
    ensures
        r@ == joined(base@, comp@),
{
    let cs = chars_of(base);
    let mut out = string_from_range(cs.as_slice(), 0, cs.len());
    proof {
        assert(cs@.subrange(0, cs@.len() as int) =~= cs@);
    }
    if cs.len() > 0 && cs[cs.len() - 1] != '/' {
        append_str(&mut out, "/");
    }
    append_str(&mut out, comp);
    out
}

/// The directory that holds the configuration: `rustynotes` under the
/// user's configuration directory, or under `~/.config` when that is unknown.
pub open spec fn config_dir_spec(user_config_dir: Option<Seq<char>>) -> Seq<char> {
    joined(
        match user_config_dir {
            Some(d) => d,
            None => "~/.config"@,
        },
        "rustynotes"@,
    )
}

/// The directory that holds the configuration file.
pub fn config_dir(user_config_dir: Option<String>) -> (r: String)
    ensures
        r@ == config_dir_spec(
            match user_config_dir {
                Some(d) => Some(d@),
                None => None,
            },
        ),
{
    let base = match user_config_dir {
        Some(d) => d,
        None => String::from_str("~/.config"),
    };
    join_path(base.as_str(), "rustynotes")
}

/// The path of the configuration file: `config.json` in the configuration
/// directory.
pub fn config_path(user_config_dir: Option<String>) -> (r: String)
    ensures
        r@ == joined(
            config_dir_spec(
                match user_config_dir {
                    Some(d) => Some(d@),
                    None => None,
                },
            ),
            "config.json"@,
        ),
{
    let dir = config_dir(user_config_dir);
    join_path(dir.as_str(), "config.json")
}

/// `dirs::config_dir`: the user's configuration directory, which the
/// platform's conventions and the environment decide; nothing is claimed of
/// it.
#[verifier::external_body]
fn user_config_dir() -> Option<String> {
    dirs::config_dir().map(|p| p.to_string_lossy().into_owned())
}

/// The path of this user's configuration file: `config.json` in the
/// configuration directory that the platform gives, or in `~/.config` when it
/// gives none.
pub fn user_config_path() -> (r: String)
    ensures
        exists|d: Option<Seq<char>>| r@ == #[trigger] joined(config_dir_spec(d), "config.json"@),
{
    let d = user_config_dir();
    let ghost dv = match &d {
        Some(s) => Some(s@),
        None => None,
    };
    let r = config_path(d);
    proof {
        assert(r@ == joined(config_dir_spec(dv), "config.json"@));
    }
    r
}

// ---------------------------------------------------------------------------
// Breadcrumb segments
// ---------------------------------------------------------------------------

/// The non-empty `/`-separated parts of `s[start..]`, in order.
pub open spec fn segments_from(s: Seq<char>, start: int) -> Seq<Seq<char>>
    decreases s.len() + 1 - start,
{
    if start < 0 || start >= s.len() {
        Seq::empty()
    } else {
        let end = crate::text::next_char(s, start, '/');
        proof {
            crate::text::lemma_next_char_bounds(s, start, '/');
        }
        if end == start {
            segments_from(s, end + 1)
        } else {
            seq![s.subrange(start, end)] + segments_from(s, end + 1)
        }
    }
}

/// The non-empty `/`-separated parts of `s`.
pub open spec fn segments(s: Seq<char>) -> Seq<Seq<char>> {
    segments_from(s, 0)
}

/// The segments the breadcrumb shows for the open file: the file path made
/// relative to the open folder when it starts with the folder's path, split
/// at `/` with empty parts left out.
pub open spec fn breadcrumb(folder: Seq<char>, file: Seq<char>) -> Seq<Seq<char>> {
    if seq_starts_with(file, folder) {
        segments(file.subrange(folder.len() as int, file.len() as int))
    } else {
        segments(file)
    }
}

/// The non-empty `/`-separated parts of `cs[start..]`.
fn split_segments(cs: &[char], start: usize) -> (r: Vec<String>)
    requires
        start <= cs@.len(),
    ensures
        crate::recent::texts(r@) == segments_from(cs@, start as int),
{
    let mut out: Vec<String> = Vec::new();
    let mut i = start;
    while i < cs.len()
        invariant
            start <= i <= cs@.len(),
            crate::recent::texts(out@) + segments_from(cs@, i as int) == segments_from(
                cs@,
                start as int,
            ),
        decreases cs.len() - i,
    {
        let mut end = i;
        while end < cs.len() && cs[end] != '/'
            invariant
                i <= end <= cs@.len(),
                forall|j: int| i <= j < end ==> #[trigger] cs@[j] != '/',
            decreases cs.len() - end,
        {
            end += 1;
        }
        proof {
            crate::text::lemma_next_char(cs@, i as int, '/', end as int);
        }
        let ghost before = out@;
        if end > i {
            let seg = string_from_range(cs, i, end);
            out.push(seg);
            proof {
                assert(crate::recent::texts(out@) =~= crate::recent::texts(before).push(seg@));
                assert(crate::recent::texts(out@) + segments_from(cs@, end + 1) =~= crate::recent::texts(
                    before,
                ) + segments_from(cs@, i as int));
            }
        }
        i = if end < cs.len() {
            end + 1
        } else {
            end
        };
        proof {
            if end >= cs@.len() {
                assert(segments_from(cs@, end + 1) =~= segments_from(cs@, end as int));
            }
        }
    }
    proof {
        assert(crate::recent::texts(out@) + segments_from(cs@, i as int) =~= crate::recent::texts(
            out@,
        ));
    }
    out
}

/// The breadcrumb segments for `file` inside the open `folder`.
pub fn breadcrumb_segments(folder: &str, file: &str) -> (r: Vec<String>)
    ensures
        crate::recent::texts(r@) == breadcrumb(folder@, file@),
{
    let cf = chars_of(folder);
    let cs = chars_of(file);
    if crate::text::chars_occur_at(cs.as_slice(), cf.as_slice(), 0) {
        let rel = string_from_range(cs.as_slice(), cf.len(), cs.len());
        let cr = chars_of(rel.as_str());
        split_segments(cr.as_slice(), 0)
    } else {
        split_segments(cs.as_slice(), 0)
    }
}

/// `parts` joined with `/` between them.
pub open spec fn joined_with_slash(parts: Seq<Seq<char>>) -> Seq<char>
    decreases parts.len(),
{
    if parts.len() == 0 {
        Seq::empty()
    } else if parts.len() == 1 {
        parts[0]
    } else {
        joined_with_slash(parts.drop_last()) + "/"@ + parts.last()
    }
}

/// The directory whose listing a click on breadcrumb segment `index` opens:
/// the folder itself for the first segment, otherwise the folder followed by
/// the segments before `index`.
pub open spec fn segment_parent(folder: Seq<char>, segs: Seq<Seq<char>>, index: int) -> Seq<char> {
    if index == 0 {
        folder
    } else {
        folder + "/"@ + joined_with_slash(segs.take(index))
    }
}

/// The directory listed when breadcrumb segment `index` is clicked.
pub fn segment_parent_path(folder: &str, segments: &Vec<String>, index: usize) -> (r: String)
    requires
        index <= segments@.len(),
    ensures
        r@ == segment_parent(folder@, crate::recent::texts(segments@), index as int),
{
    if index == 0 {
        return String::from_str(folder);
    }
    let mut joined = String::new();
    let mut i: usize = 0;
    while i < index
        invariant
            i <= index <= segments@.len(),
            joined@ == joined_with_slash(crate::recent::texts(segments@).take(i as int)),
        decreases index - i,
    {
        proof {
            let t = crate::recent::texts(segments@);
            assert(t.take(i + 1).drop_last() =~= t.take(i as int));
            assert(t.take(i + 1).last() == segments@[i as int]@);
        }
        if i > 0 {
            append_str(&mut joined, "/");
        }
        append_str(&mut joined, segments[i].as_str());
        proof {
            let t = crate::recent::texts(segments@);
            if i == 0 {
                assert(joined@ =~= t.take(1)[0]);
            }
        }
        i += 1;
    }
    let mut out = concat(folder, "/");
    append_str(&mut out, joined.as_str());
    out
}

// ---------------------------------------------------------------------------
// Comparing paths
// ---------------------------------------------------------------------------

/// The parts of a path other than separators and `.`, in order.
pub open spec fn named_parts(p: Seq<char>) -> Seq<Seq<char>> {
    segments(p).filter(|x: Seq<char>| x != "."@)
}

/// Whether a relative path starts with a `.` part, which
/// `std::path::Path::components` keeps as its first component.
pub open spec fn leads_with_dot(p: Seq<char>) -> bool {
    !(p.len() > 0 && p[0] == '/') && segments(p).len() > 0 && segments(p)[0] == "."@
}

/// A path text written by its components, as `std::path::Path::components`
/// documents them: a leading `/` for the root, repeated and trailing
/// separators dropped, `.` parts dropped except one leading a relative path.
/// `Path` compares paths by their components, so two texts name the same
/// `Path` exactly when their keys are equal.
pub open spec fn path_key(p: Seq<char>) -> Seq<char> {
    let parts = joined_with_slash(named_parts(p));
    if p.len() > 0 && p[0] == '/' {
        "/"@ + parts
    } else if leads_with_dot(p) {
        if named_parts(p).len() == 0 {
            "."@
        } else {
            "./"@ + parts
        }
    } else {
        parts
    }
}

/// The key by which `path` is compared with other paths.
pub fn path_key_of(path: &str) -> (r: String)
    ensures
        r@ == path_key(path@),
{
    let cs = chars_of(path);
    let segs = split_segments(cs.as_slice(), 0);
    let ghost all = crate::recent::texts(segs@);
    let ghost keep = |x: Seq<char>| x != "."@;
    let mut joined = String::new();
    let mut count: usize = 0;
    let mut i: usize = 0;
    while i < segs.len()
        invariant
            i <= segs@.len(),
            all == crate::recent::texts(segs@),
            keep == (|x: Seq<char>| x != "."@),
            count == all.take(i as int).filter(keep).len(),
            joined@ == joined_with_slash(all.take(i as int).filter(keep)),
        decreases segs.len() - i,
    {
        proof {
            assert(all.take(i + 1) =~= all.take(i as int).push(all[i as int]));
            all.take(i as int).lemma_filter_push(all[i as int], keep);
            all.take(i as int).filter(keep).lemma_filter_len(keep);
            all.take(i as int).lemma_filter_len(keep);
        }
        if !crate::text::str_equal(segs[i].as_str(), ".") {
            let ghost f = all.take(i as int).filter(keep);
            if count > 0 {
                append_str(&mut joined, "/");
            }
            append_str(&mut joined, segs[i].as_str());
            proof {
                let g = f.push(all[i as int]);
                assert(g.drop_last() =~= f);
                if count == 0 {
                    assert(joined@ =~= g[0]);
                }
            }
            count += 1;
        }
        i += 1;
    }
    proof {
        assert(all.take(all.len() as int) =~= all);
        assert(cs@ == path@);
    }
    let rooted = cs.len() > 0 && cs[0] == '/';
    if rooted {
        return concat("/", joined.as_str());
    }
    if segs.len() > 0 && crate::text::str_equal(segs[0].as_str(), ".") {
        if count == 0 {
            return String::from_str(".");
        }
        return concat("./", joined.as_str());
    }
    joined
}

} // verus!
