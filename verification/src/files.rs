//! The rules of the file commands: which paths are markdown, the errors the
//! commands answer with, the search over a folder, and file-change events.
use vstd::prelude::*;
use crate::common::SearchResult;
use crate::recent::texts;
use crate::paths::{after_last, file_name_of, find_after_last, path_file_name};
use crate::text::{
    chars_of, concat, lines_of, lines_of_chars, lowercase, seq_contains, str_contains,
    str_equal, string_from_chars, string_from_range, to_lowercase, trim_chars, trimmed,
};

verus! {

// ---------------------------------------------------------------------------
// Markdown paths
// ---------------------------------------------------------------------------

/// The extension of a file name, as `std::path::Path::extension` documents
/// it: the part after the last `.`, unless there is no `.`, or the only `.`
/// begins the name; `..` has none.
pub open spec fn name_extension(name: Seq<char>) -> Option<Seq<char>> {
    if name == ".."@ || after_last(name, '.') < 2 {
        None
    } else {
        Some(name.subrange(after_last(name, '.'), name.len() as int))
    }
}

/// Whether a path names a markdown file: its last component has the
/// extension `md`.
pub open spec fn markdown_path(path: Seq<char>) -> bool {
    path_file_name(path) matches Some(n) && name_extension(n) == Some("md"@)
}

/// The extension of a file name.
pub fn extension_of_name(name: &str) -> (r: Option<String>)
    ensures
        opt_seq(r) == name_extension(name@),
{
    proof {
        reveal_strlit("..");
    }
    if str_equal(name, "..") {
        return None;
    }
    let cs = chars_of(name);
    let k = find_after_last(cs.as_slice(), '.');
    if k < 2 {
        None
    } else {
        Some(string_from_range(cs.as_slice(), k, cs.len()))
    }
}

/// The text of an optional string.
pub open spec fn opt_seq(o: Option<String>) -> Option<Seq<char>> {
    match o {
        Some(s) => Some(s@),
        None => None,
    }
}

/// Whether a path names a markdown file.
pub fn is_markdown_path(path: &str) -> (r: bool)
    ensures
        r == markdown_path(path@),
{
    proof {
        reveal_strlit("md");
    }
    match file_name_of(path) {
        None => false,
        Some(n) => match extension_of_name(n.as_str()) {
            Some(e) => str_equal(e.as_str(), "md"),
            None => false,
        },
    }
}

// ---------------------------------------------------------------------------
// Errors
// ---------------------------------------------------------------------------

/// A failed file operation: an I/O error with its message, or a path that
/// does not exist.
#[derive(Debug, Clone, PartialEq)]
pub enum FsError {
    Io(String),
    NotFound(String),
}

/// What a file error says.
pub open spec fn fs_error_text(e: FsError) -> Seq<char> {
    match e {
        FsError::Io(m) => "IO error: "@ + m@,
        FsError::NotFound(p) => "Path not found: "@ + p@,
    }
}

impl FsError {
    /// The error's message.
    pub fn message(&self) -> (r: String)
        ensures
            r@ == fs_error_text(*self),
    {
        match self {
            FsError::Io(m) => concat("IO error: ", m.as_str()),
            FsError::NotFound(p) => concat("Path not found: ", p.as_str()),
        }
    }
}

/// The error a command answers with: a file error, or any other message.
#[derive(Debug, Clone, PartialEq)]
pub enum CommandError {
    Fs(FsError),
    Generic(String),
}

/// What a command error says: the file error's message, or the message
/// itself.
pub open spec fn command_error_text(e: CommandError) -> Seq<char> {
    match e {
        CommandError::Fs(f) => fs_error_text(f),
        CommandError::Generic(m) => m@,
    }
}

impl CommandError {
    /// The error's message, which is what the command answers.
    pub fn message(&self) -> (r: String)
        ensures
            r@ == command_error_text(*self),
    {
        match self {
            CommandError::Fs(f) => f.message(),
            CommandError::Generic(m) => m.clone(),
        }
    }
}

impl From<FsError> for CommandError {
    fn from(e: FsError) -> (r: CommandError) {
        CommandError::Fs(e)
    }
}

impl vstd::std_specs::convert::FromSpecImpl<FsError> for CommandError {
    open spec fn obeys_from_spec() -> bool {
        true
    }

    open spec fn from_spec(e: FsError) -> CommandError {
        CommandError::Fs(e)
    }
}

// ---------------------------------------------------------------------------
// Search
// ---------------------------------------------------------------------------

/// The most hits a search returns.
pub const SEARCH_LIMIT: usize = 50;

/// The most characters of a matching line that a hit shows.
pub const CONTEXT_CHARS: usize = 120;

/// The first line whose lower-case form contains `key`.
pub open spec fn first_matching_line(lines: Seq<Seq<char>>, key: Seq<char>) -> Option<Seq<char>>
    decreases lines.len(),
{
    if lines.len() == 0 {
        None
    } else if seq_contains(lowercase(lines[0]), key) {
        Some(lines[0])
    } else {
        first_matching_line(lines.drop_first(), key)
    }
}

/// The context a hit shows for a matching line: the line trimmed, cut to
/// `CONTEXT_CHARS` characters.
pub open spec fn context_of(line: Seq<char>) -> Seq<char> {
    if trimmed(line).len() <= CONTEXT_CHARS {
        trimmed(line)
    } else {
        trimmed(line).take(CONTEXT_CHARS as int)
    }
}

/// What a file found by a search gives, with the lower-cased query `key`:
/// an empty context when its name matches; else the context of its first
/// matching line, when its text was read and has one; else no hit.
pub open spec fn search_hit(name: Seq<char>, content: Option<Seq<char>>, key: Seq<char>) -> Option<Seq<char>> {
    if seq_contains(lowercase(name), key) {
        Some(Seq::empty())
    } else {
        match content {
            None => None,
            Some(c) => match first_matching_line(lines_of(c), key) {
                None => None,
                Some(l) => Some(context_of(l)),
            },
        }
    }
}

/// The form of the query that names and lines are matched against.
pub fn query_key(query: &str) -> (r: String)
    ensures
        r@ == lowercase(query@),
{
    to_lowercase(query)
}

/// Whether a file name matches the lower-cased query.
pub fn name_hit(name: &str, key: &str) -> (r: bool)
    ensures
        r == seq_contains(lowercase(name@), key@),
{
    let lower = to_lowercase(name);
    str_contains(lower.as_str(), key)
}

/// The context of the first line of `content` that matches the lower-cased
/// query, if any.
pub fn line_context(content: &str, key: &str) -> (r: Option<String>)
    ensures
        match first_matching_line(lines_of(content@), key@) {
            None => r is None,
            Some(l) => r matches Some(c) && c@ == context_of(l),
        },
        r matches Some(c) ==> (c@.len() > 0 ==> !crate::text::ascii_space(c@[0])),
{
    let cs = chars_of(content);
    let lines = lines_of_chars(cs.as_slice());
    let ghost all = lines_of(content@);
    let mut i: usize = 0;
    proof {
        assert(all.skip(0) =~= all);
    }
    while i < lines.len()
        invariant
            i <= lines@.len(),
            lines@.len() == all.len(),
            all == lines_of(content@),
            forall|j: int| 0 <= j < lines@.len() ==> (#[trigger] lines@[j])@ == all[j],
            first_matching_line(all, key@) == first_matching_line(all.skip(i as int), key@),
        decreases lines.len() - i,
    {
        let line = string_from_chars(lines[i].as_slice());
        let lower = to_lowercase(line.as_str());
        let ghost rest = all.skip(i as int);
        proof {
            assert(rest[0] == all[i as int]);
            assert(rest.drop_first() =~= all.skip(i + 1));
        }
        if str_contains(lower.as_str(), key) {
            let trimmed_line = trim_chars(lines[i].as_slice());
            let n = if trimmed_line.len() <= CONTEXT_CHARS {
                trimmed_line.len()
            } else {
                CONTEXT_CHARS
            };
            let c = string_from_range(trimmed_line.as_slice(), 0, n);
            proof {
                assert(trimmed_line@.subrange(0, n as int) =~= context_of(all[i as int]));
                law_context_trimmed(all[i as int]);
            }
            return Some(c);
        }
        i += 1;
    }
    proof {
        assert(all.skip(i as int).len() == 0);
    }
    None
}

/// One file of a search: the hit it gives (see `search_hit`) is added to
/// the results. `content` is the file's text, when it was read; it is not
/// looked at when the name matches. The answer is whether the search goes
/// on: it stops once `SEARCH_LIMIT` hits are found.
pub fn search_step(results: &mut Vec<SearchResult>, path: String, name: String, content: Option<String>, key: &str) -> (more: bool)
    ensures
        match search_hit(name@, opt_seq(content), key@) {
            None => final(results)@ == old(results)@,
            Some(ctx) => {
                &&& final(results)@.len() == old(results)@.len() + 1
                &&& final(results)@.drop_last() == old(results)@
                &&& final(results)@.last().path == path
                &&& final(results)@.last().name == name
                &&& final(results)@.last().context@ == ctx
            },
        },
        more == (final(results)@.len() < SEARCH_LIMIT),
        old(results)@.len() < SEARCH_LIMIT ==> final(results)@.len() <= SEARCH_LIMIT,
{
    if name_hit(name.as_str(), key) {
        results.push(SearchResult { path, name, context: String::new() });
    } else {
        match content {
            None => {},
            Some(c) => {
                match line_context(c.as_str(), key) {
                    None => {},
                    Some(ctx) => {
                        results.push(SearchResult { path, name, context: ctx });
                    },
                }
            },
        }
    }
    results.len() < SEARCH_LIMIT
}

// ---------------------------------------------------------------------------
// File changes
// ---------------------------------------------------------------------------

/// A change in the watched folder, as the interface is told of it: the
/// markdown paths it touched and the kind of change.
#[derive(Debug, Clone, PartialEq)]
pub struct FileChangeEvent {
    pub paths: Vec<String>,
    pub kind: String,
}

/// The markdown paths among `paths`, in order.
pub open spec fn markdown_only(paths: Seq<Seq<char>>) -> Seq<Seq<char>>
    decreases paths.len(),
{
    if paths.len() == 0 {
        Seq::empty()
    } else if markdown_path(paths.last()) {
        markdown_only(paths.drop_last()).push(paths.last())
    } else {
        markdown_only(paths.drop_last())
    }
}

/// The event a change gives: the markdown paths it touched, or no event when
/// it touched none.
pub fn file_change_event(paths: &Vec<String>, kind: String) -> (r: Option<FileChangeEvent>)
    ensures
        if markdown_only(texts(paths@)).len() == 0 {
            r is None
        } else {
            r matches Some(ev) && texts(ev.paths@) == markdown_only(texts(paths@)) && ev.kind == kind
        },
{
    let ghost all = texts(paths@);
    let mut kept: Vec<String> = Vec::new();
    let mut i: usize = 0;
    while i < paths.len()
        invariant
            i <= paths@.len(),
            all == texts(paths@),
            texts(kept@) == markdown_only(all.take(i as int)),
        decreases paths.len() - i,
    {
        proof {
            assert(all.take(i + 1).drop_last() =~= all.take(i as int));
            assert(all.take(i + 1).last() == all[i as int]);
        }
        if is_markdown_path(paths[i].as_str()) {
            kept.push(paths[i].clone());
            proof {
                assert(texts(kept@) =~= texts(kept@).drop_last().push(paths@[i as int]@));
            }
        }
        i += 1;
    }
    proof {
        assert(all.take(paths@.len() as int) =~= all);
    }
    if kept.len() == 0 {
        None
    } else {
        Some(FileChangeEvent { paths: kept, kind })
    }
}

/// The context of a matching line is at most `CONTEXT_CHARS` long and never
/// starts with white space (a tab, a space, a line break); when the trimmed
/// line fits, it does not end with white space either.
pub proof fn law_context_trimmed(line: Seq<char>)
    ensures
        context_of(line).len() <= CONTEXT_CHARS,
        context_of(line).len() > 0 ==> !crate::text::ascii_space(context_of(line)[0])
            && !crate::text::is_white_space(context_of(line)[0]),
        trimmed(line).len() <= CONTEXT_CHARS && context_of(line).len() > 0 ==> !crate::text::ascii_space(
            context_of(line).last(),
        ),
{
    crate::text::law_trimmed_ends(line);
}

} // verus!
