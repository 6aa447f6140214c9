//! Markdown rendering: CommonMark with the editor's extensions, then syntax
//! highlighting of the fenced code blocks in the produced HTML.
use vstd::prelude::*;
use crate::recent::texts;
use crate::text::{append_str, concat, str_equal};

verus! {

// ---------------------------------------------------------------------------
// Rendering options
// ---------------------------------------------------------------------------

/// The CommonMark extensions and rendering switches the editor uses.
#[derive(Debug)]
pub struct MarkdownOptions {
    pub strikethrough: bool,
    pub table: bool,
    pub autolink: bool,
    pub tasklist: bool,
    pub footnotes: bool,
    pub description_lists: bool,
    pub alerts: bool,
    pub math_dollars: bool,
    pub header_id_prefix: Option<String>,
    pub front_matter_delimiter: Option<String>,
    pub wikilinks_title_after_pipe: bool,
    pub unsafe_html: bool,
}

/// The mathematical value of the rendering options.
pub struct MarkdownSettings {
    pub strikethrough: bool,
    pub table: bool,
    pub autolink: bool,
    pub tasklist: bool,
    pub footnotes: bool,
    pub description_lists: bool,
    pub alerts: bool,
    pub math_dollars: bool,
    pub header_id_prefix: Option<Seq<char>>,
    pub front_matter_delimiter: Option<Seq<char>>,
    pub wikilinks_title_after_pipe: bool,
    pub unsafe_html: bool,
}

/// The text of an optional string.
pub open spec fn opt_text(o: Option<String>) -> Option<Seq<char>> {
    match o {
        Some(s) => Some(s@),
        None => None,
    }
}

impl View for MarkdownOptions {
    type V = MarkdownSettings;

    open spec fn view(&self) -> MarkdownSettings {
        MarkdownSettings {
            strikethrough: self.strikethrough,
            table: self.table,
            autolink: self.autolink,
            tasklist: self.tasklist,
            footnotes: self.footnotes,
            description_lists: self.description_lists,
            alerts: self.alerts,
            math_dollars: self.math_dollars,
            header_id_prefix: opt_text(self.header_id_prefix),
            front_matter_delimiter: opt_text(self.front_matter_delimiter),
            wikilinks_title_after_pipe: self.wikilinks_title_after_pipe,
            unsafe_html: self.unsafe_html,
        }
    }
}

/// The editor's settings: the GitHub extensions (strikethrough, tables,
/// autolinks, task lists, footnotes, description lists, alerts), dollar
/// math, heading ids without prefix, `---` front matter, wiki links with the
/// title after the pipe, and raw HTML passed through.
pub open spec fn editor_markdown_settings() -> MarkdownSettings {
    MarkdownSettings {
        strikethrough: true,
        table: true,
        autolink: true,
        tasklist: true,
        footnotes: true,
        description_lists: true,
        alerts: true,
        math_dollars: true,
        header_id_prefix: Some(Seq::empty()),
        front_matter_delimiter: Some("---"@),
        wikilinks_title_after_pipe: true,
        unsafe_html: true,
    }
}

/// What `comrak::markdown_to_html` produces for a text under the given
/// settings (all others at comrak's defaults).
pub uninterp spec fn comrak_html(input: Seq<char>, settings: MarkdownSettings) -> Seq<char>;

/// `comrak::markdown_to_html` with comrak's default options changed as the
/// settings say. Claimed: the result is `comrak_html` of the text and the
/// settings.
#[verifier::external_body]
fn markdown_to_html(input: &str, options: &MarkdownOptions) -> (r: String)
    ensures
        r@ == comrak_html(input@, options@),
{
    let mut o = comrak::Options::default();
    o.extension.strikethrough = options.strikethrough;
    o.extension.table = options.table;
    o.extension.autolink = options.autolink;
    o.extension.tasklist = options.tasklist;
    o.extension.footnotes = options.footnotes;
    o.extension.description_lists = options.description_lists;
    o.extension.alerts = options.alerts;
    o.extension.math_dollars = options.math_dollars;
    o.extension.header_id_prefix = options.header_id_prefix.clone();
    o.extension.front_matter_delimiter = options.front_matter_delimiter.clone();
    o.extension.wikilinks_title_after_pipe = options.wikilinks_title_after_pipe;
    o.render = comrak::options::Render::builder().maybe_unsafe(Some(options.unsafe_html)).build();
    comrak::markdown_to_html(input, &o)
}

// ---------------------------------------------------------------------------
// Finding code blocks
// ---------------------------------------------------------------------------

/// The pattern of a fenced code block with a language in comrak's HTML: the
/// language is the first group, the escaped code the second.
pub open spec fn code_block_pattern() -> Seq<char> {
    "<pre><code class=\"language-(\\w+)\">([\\s\\S]*?)</code></pre>"@
}

fn code_block_pattern_text() -> (r: &'static str)
    ensures
        r@ == code_block_pattern(),
{
    "<pre><code class=\"language-(\\w+)\">([\\s\\S]*?)</code></pre>"
}

/// The groups of each match, as texts.
pub open spec fn groups_view(v: Seq<Vec<Option<String>>>) -> Seq<Seq<Option<Seq<char>>>> {
    v.map_values(|g: Vec<Option<String>>| g@.map_values(|o: Option<String>| opt_text(o)))
}

#[verifier::external_type_specification]
#[verifier::external_body]
pub struct ExRegex(regex::Regex);

/// Whether `regex::Regex::new` accepts a pattern.
pub uninterp spec fn regex_accepts(pattern: Seq<char>) -> bool;

/// The parts of `text` between the matches of `pattern`, in order, as
/// `regex::Regex::split` gives them.
pub uninterp spec fn regex_gaps(pattern: Seq<char>, text: Seq<char>) -> Seq<Seq<char>>;

/// The capture groups of each match of `pattern` in `text`, in order, as
/// `regex::Regex::captures_iter` gives them (`None` for a group that did not
/// take part).
pub uninterp spec fn regex_groups(pattern: Seq<char>, text: Seq<char>) -> Seq<Seq<Option<Seq<char>>>>;

/// A compiled regular expression with the pattern it was compiled from.
pub struct CompiledRegex {
    pattern: String,
    regex: regex::Regex,
}

impl CompiledRegex {
    /// The pattern it was compiled from.
    pub closed spec fn pattern(&self) -> Seq<char> {
        self.pattern@
    }
}

/// `regex::Regex::new`. Claimed: it succeeds exactly when `regex_accepts`
/// holds of the pattern, and the result keeps the pattern.
#[verifier::external_body]
fn compile_regex(pattern: &str) -> (r: Option<CompiledRegex>)
    ensures
        r is Some == regex_accepts(pattern@),
        r matches Some(c) ==> c.pattern() == pattern@,
{
    regex::Regex::new(pattern).ok().map(|regex| CompiledRegex { pattern: pattern.to_string(), regex })
}

/// `regex::Regex::split`. Claimed: the pieces are `regex_gaps` of the
/// pattern and the text.
#[verifier::external_body]
fn regex_split(re: &CompiledRegex, text: &str) -> (r: Vec<String>)
    ensures
        texts(r@) == regex_gaps(re.pattern(), text@),
{
    re.regex.split(text).map(|s| s.to_string()).collect()
}

/// `regex::Regex::captures_iter`, each match as the list of its groups.
/// Claimed: the result is `regex_groups` of the pattern and the text, and
/// the whole match (group 0) is always present.
#[verifier::external_body]
fn regex_captures(re: &CompiledRegex, text: &str) -> (r: Vec<Vec<Option<String>>>)
    ensures
        groups_view(r@) == regex_groups(re.pattern(), text@),
        forall|i: int| 0 <= i < r@.len() ==> (#[trigger] r@[i])@.len() > 0 && r@[i]@[0] is Some,
{
    re.regex.captures_iter(text).map(|c| c.iter().map(|m| m.map(|m| m.as_str().to_string())).collect()).collect()
}

#[verifier::external_type_specification]
#[verifier::external_body]
pub struct ExLiteRegex(regex_lite::Regex);

/// Whether `regex_lite::Regex::new` accepts a pattern.
pub uninterp spec fn lite_regex_accepts(pattern: Seq<char>) -> bool;

/// The parts of `text` between the matches of `pattern`, in order, as
/// `regex_lite::Regex::split` gives them.
pub uninterp spec fn lite_regex_gaps(pattern: Seq<char>, text: Seq<char>) -> Seq<Seq<char>>;

/// The capture groups of each match of `pattern` in `text`, in order, as
/// `regex_lite::Regex::captures_iter` gives them.
pub uninterp spec fn lite_regex_groups(pattern: Seq<char>, text: Seq<char>) -> Seq<Seq<Option<Seq<char>>>>;

/// A compiled `regex_lite` expression with the pattern it was compiled from.
pub struct LiteRegex {
    pattern: String,
    regex: regex_lite::Regex,
}

impl LiteRegex {
    /// The pattern it was compiled from.
    pub closed spec fn pattern(&self) -> Seq<char> {
        self.pattern@
    }
}

/// `regex_lite::Regex::new`. Claimed: it succeeds exactly when
/// `lite_regex_accepts` holds of the pattern, and the result keeps the pattern.
#[verifier::external_body]
fn compile_lite_regex(pattern: &str) -> (r: Option<LiteRegex>)
    ensures
        r is Some == lite_regex_accepts(pattern@),
        r matches Some(c) ==> c.pattern() == pattern@,
{
    regex_lite::Regex::new(pattern).ok().map(|regex| LiteRegex { pattern: pattern.to_string(), regex })
}

/// `regex_lite::Regex::split`. Claimed: the pieces are `lite_regex_gaps` of
/// the pattern and the text.
#[verifier::external_body]
fn lite_regex_split(re: &LiteRegex, text: &str) -> (r: Vec<String>)
    ensures
        texts(r@) == lite_regex_gaps(re.pattern(), text@),
{
    re.regex.split(text).map(|s| s.to_string()).collect()
}

/// `regex_lite::Regex::captures_iter`, each match as the list of its groups.
/// Claimed: the result is `lite_regex_groups` of the pattern and the text,
/// and the whole match (group 0) is always present.
#[verifier::external_body]
fn lite_regex_captures(re: &LiteRegex, text: &str) -> (r: Vec<Vec<Option<String>>>)
    ensures
        groups_view(r@) == lite_regex_groups(re.pattern(), text@),
        forall|i: int| 0 <= i < r@.len() ==> (#[trigger] r@[i])@.len() > 0 && r@[i]@[0] is Some,
{
    re.regex.captures_iter(text).map(|c| c.iter().map(|m| m.map(|m| m.as_str().to_string())).collect()).collect()
}

// ---------------------------------------------------------------------------
// Highlighting
// ---------------------------------------------------------------------------

/// What `html_escape::decode_html_entities` gives for a text: the text with
/// its HTML character references replaced by the characters they stand for.
pub uninterp spec fn html_decoded(s: Seq<char>) -> Seq<char>;

/// `html_escape::decode_html_entities`. Claimed: the result is
/// `html_decoded` of the input.
#[verifier::external_body]
fn decode_entities(s: &str) -> (r: String)
    ensures
        r@ == html_decoded(s@),
{
    html_escape::decode_html_entities(s).into_owned()
}

#[verifier::external_type_specification]
#[verifier::external_body]
pub struct ExSyntaxSet(syntect::parsing::SyntaxSet);

#[verifier::external_type_specification]
#[verifier::external_body]
pub struct ExThemeSet(syntect::highlighting::ThemeSet);

/// `syntect::parsing::SyntaxSet::load_defaults_newlines`: syntect's bundled
/// syntax definitions. Nothing is claimed of them.
#[verifier::external_body]
fn load_syntax_set() -> syntect::parsing::SyntaxSet {
    syntect::parsing::SyntaxSet::load_defaults_newlines()
}

/// `syntect::highlighting::ThemeSet::load_defaults`: syntect's bundled
/// themes. Nothing is claimed of them.
#[verifier::external_body]
fn load_theme_set() -> syntect::highlighting::ThemeSet {
    syntect::highlighting::ThemeSet::load_defaults()
}

/// The name of the syntax that `SyntaxSet::find_syntax_by_token` finds for a
/// fence token in syntect's bundled syntax set, if it finds one.
pub uninterp spec fn bundled_syntax_for(token: Seq<char>) -> Option<Seq<char>>;

/// What `syntect::html::highlighted_html_for_string` gives for `code` with
/// the syntax of the bundled syntax set that `SyntaxSet::find_syntax_by_name`
/// finds under `syntax` and the bundled theme named `theme`: `None` when the
/// set has no such syntax or theme, or when highlighting fails.
pub uninterp spec fn bundled_highlighted(code: Seq<char>, syntax: Seq<char>, theme: Seq<char>) -> Option<Seq<char>>;

/// Syntect's bundled syntaxes and themes. The fields are private and `load`
/// is the only way to build one, so every value holds the bundled sets.
pub struct Highlighter {
    syntaxes: syntect::parsing::SyntaxSet,
    themes: syntect::highlighting::ThemeSet,
}

/// The highlighted form of `code` for the fence language `lang`: the syntax
/// the bundled set finds for the token, plain text when it finds none, in the
/// `base16-ocean.dark` theme.
pub open spec fn highlighting(code: Seq<char>, lang: Seq<char>) -> Option<Seq<char>> {
    bundled_highlighted(
        code,
        match bundled_syntax_for(lang) {
            Some(name) => name,
            None => "Plain Text"@,
        },
        "base16-ocean.dark"@,
    )
}

impl Highlighter {
    /// Loads the bundled syntaxes and themes.
    pub fn load() -> Highlighter {
        Highlighter { syntaxes: load_syntax_set(), themes: load_theme_set() }
    }

    /// `SyntaxSet::find_syntax_by_token` on the bundled syntaxes, giving the
    /// name of the syntax found. Claimed: the result is `bundled_syntax_for`
    /// of the token (this value holds the bundled set, see `Highlighter`).
    #[verifier::external_body]
    fn syntax_name_for_token(&self, token: &str) -> (r: Option<String>)
        ensures
            opt_text(r) == bundled_syntax_for(token@),
    {
        self.syntaxes.find_syntax_by_token(token).map(|s| s.name.clone())
    }

    /// `syntect::html::highlighted_html_for_string` with the bundled syntax
    /// that `SyntaxSet::find_syntax_by_name` finds under `syntax` and the
    /// bundled theme that `BTreeMap::get` finds under `theme`; `None` when
    /// either is missing or highlighting fails. Claimed: the result is
    /// `bundled_highlighted` of the code and the two names.
    #[verifier::external_body]
    fn highlight_with(&self, code: &str, syntax: &str, theme: &str) -> (r: Option<String>)
        ensures
            opt_text(r) == bundled_highlighted(code@, syntax@, theme@),
    {
        let found = self.syntaxes.find_syntax_by_name(syntax)?;
        let chosen = self.themes.themes.get(theme)?;
        syntect::html::highlighted_html_for_string(code, &self.syntaxes, found, chosen).ok()
    }

    /// The code highlighted as the language `lang` (plain text when no
    /// syntax answers to it) in the `base16-ocean.dark` theme, or `None` when
    /// highlighting fails.
    pub fn highlight(&self, code: &str, lang: &str) -> (r: Option<String>)
        ensures
            opt_text(r) == highlighting(code@, lang@),
    {
        let found = self.syntax_name_for_token(lang);
        let name: &str = match &found {
            Some(n) => n.as_str(),
            None => "Plain Text",
        };
        self.highlight_with(code, name, "base16-ocean.dark")
    }
}

// ---------------------------------------------------------------------------
// Replacing code blocks
// ---------------------------------------------------------------------------

/// Highlighted code in the wrapper that the preview styles.
pub open spec fn shiki_wrapped(h: Seq<char>) -> Seq<char> {
    "<div class=\"shiki-wrapper\">"@ + h + "</div>"@
}

/// The whole match of a block.
pub open spec fn whole_match(g: Seq<Option<Seq<char>>>) -> Seq<char> {
    if g.len() > 0 && g[0] is Some {
        g[0]->0
    } else {
        Seq::empty()
    }
}

/// Whether a block is left as it is: one without both groups, or a
/// `mermaid` block, which the preview draws itself.
pub open spec fn keeps_block(g: Seq<Option<Seq<char>>>) -> bool {
    g.len() < 3 || g[1] is None || g[2] is None || g[1]->0 == "mermaid"@
}

/// The block's replacement, given what highlighting its code gave.
pub open spec fn block_replacement(g: Seq<Option<Seq<char>>>, highlighted: Option<Seq<char>>) -> Seq<char> {
    if keeps_block(g) {
        whole_match(g)
    } else {
        match highlighted {
            Some(h) => shiki_wrapped(h),
            None => whole_match(g),
        }
    }
}

/// What a block becomes: its replacement with the highlighted form of its
/// decoded code in its language.
pub open spec fn block_out(g: Seq<Option<Seq<char>>>) -> Seq<char> {
    block_replacement(g, highlighting(html_decoded(g[2]->0), g[1]->0))
}

/// The replacement of one code block: a kept block is its whole match; any
/// other is the highlighted code in its wrapper, or the whole match when
/// highlighting failed.
pub fn replace_block(groups: &Vec<Option<String>>, highlighted: Option<String>) -> (r: String)
    ensures
        r@ == block_replacement(groups@.map_values(|o: Option<String>| opt_text(o)), opt_text(highlighted)),
{
    let ghost g = groups@.map_values(|o: Option<String>| opt_text(o));
    let whole = if groups.len() > 0 {
        match &groups[0] {
            Some(w) => w.clone(),
            None => String::new(),
        }
    } else {
        String::new()
    };
    if groups.len() < 3 {
        return whole;
    }
    let lang = match &groups[1] {
        Some(l) => l,
        None => return whole,
    };
    if groups[2].is_none() {
        return whole;
    }
    proof {
        reveal_strlit("mermaid");
    }
    if str_equal(lang.as_str(), "mermaid") {
        return whole;
    }
    match highlighted {
        Some(h) => {
            let head = concat("<div class=\"shiki-wrapper\">", h.as_str());
            concat(head.as_str(), "</div>")
        },
        None => whole,
    }
}

/// The gaps with the replacements between them: the first `n` gaps, each
/// after the first preceded by the replacement of the match before it.
pub open spec fn woven(gaps: Seq<Seq<char>>, reps: Seq<Seq<char>>, n: int) -> Seq<char>
    decreases n,
{
    if n <= 0 {
        Seq::empty()
    } else {
        woven(gaps, reps, n - 1) + (if n >= 2 && n - 2 < reps.len() {
            reps[n - 2]
        } else {
            Seq::empty()
        }) + gaps[n - 1]
    }
}

/// The text made of the gaps with each match replaced by what its block
/// becomes.
pub open spec fn highlighted_blocks(gaps: Seq<Seq<char>>, groups: Seq<Seq<Option<Seq<char>>>>) -> Seq<char> {
    woven(gaps, groups.map_values(|g: Seq<Option<Seq<char>>>| block_out(g)), gaps.len() as int)
}

fn weave(gaps: &Vec<String>, reps: &Vec<String>) -> (r: String)
    ensures
        r@ == woven(texts(gaps@), texts(reps@), gaps@.len() as int),
{
    let ghost g = texts(gaps@);
    let ghost rs = texts(reps@);
    let mut out = String::new();
    let mut k: usize = 0;
    while k < gaps.len()
        invariant
            k <= gaps@.len(),
            g == texts(gaps@),
            rs == texts(reps@),
            out@ == woven(g, rs, k as int),
        decreases gaps.len() - k,
    {
        let ghost before = out@;
        if k >= 1 && k - 1 < reps.len() {
            append_str(&mut out, reps[k - 1].as_str());
        }
        append_str(&mut out, gaps[k].as_str());
        proof {
            let n = k + 1;
            assert(woven(g, rs, n as int) == woven(g, rs, k as int) + (if n >= 2 && n - 2 < rs.len() {
                rs[n - 2]
            } else {
                Seq::empty()
            }) + g[k as int]);
            if k >= 1 && k - 1 < reps.len() {
                assert(out@ == before + rs[k - 1] + g[k as int]);
            } else {
                assert(out@ == before + g[k as int]);
                assert(before + Seq::<char>::empty() + g[k as int] =~= before + g[k as int]);
            }
        }
        k += 1;
    }
    out
}

/// The code blocks found in the HTML replaced: `gaps` are the parts between
/// the matches, `groups` the matches' groups. The bundled highlighting data
/// is loaded only when a block needs it.
fn replace_blocks(gaps: &Vec<String>, groups: &Vec<Vec<Option<String>>>) -> (r: String)
    ensures
        r@ == highlighted_blocks(texts(gaps@), groups_view(groups@)),
{
    let ghost gv = groups_view(groups@);
    let mut reps: Vec<String> = Vec::new();
    let mut hl: Option<Highlighter> = None;
    let mut i: usize = 0;
    while i < groups.len()
        invariant
            i <= groups@.len(),
            gv == groups_view(groups@),
            reps@.len() == i,
            forall|j: int| 0 <= j < i ==> #[trigger] texts(reps@)[j] == block_out(gv[j]),
        decreases groups.len() - i,
    {
        let g = &groups[i];
        proof {
            assert(g@.map_values(|o: Option<String>| opt_text(o)) == gv[i as int]);
        }
        let highlighted = if g.len() >= 3 {
            match (&g[1], &g[2]) {
                (Some(lang), Some(code)) => {
                    if str_equal(lang.as_str(), "mermaid") {
                        None
                    } else {
                        if hl.is_none() {
                            hl = Some(Highlighter::load());
                        }
                        match &hl {
                            Some(h) => {
                                let decoded = decode_entities(code.as_str());
                                let out = h.highlight(decoded.as_str(), lang.as_str());
                                proof {
                                    assert(gv[i as int][1] == Some(lang@));
                                    assert(gv[i as int][2] == Some(code@));
                                    assert(opt_text(out) == highlighting(html_decoded(gv[i as int][2]->0), gv[i as int][1]->0));
                                }
                                out
                            },
                            None => None,
                        }
                    }
                },
                _ => None,
            }
        } else {
            None
        };
        let ghost hv = opt_text(highlighted);
        let rep = replace_block(g, highlighted);
        proof {
            assert(rep@ == block_replacement(gv[i as int], hv));
            if !keeps_block(gv[i as int]) {
                assert(gv[i as int][1] is Some && gv[i as int][2] is Some);
                assert(hv == highlighting(html_decoded(gv[i as int][2]->0), gv[i as int][1]->0));
            }
            assert(rep@ == block_out(gv[i as int]));
        }
        let ghost old_reps = reps@;
        reps.push(rep);
        proof {
            assert forall|j: int| 0 <= j < i + 1 implies #[trigger] texts(reps@)[j] == block_out(gv[j]) by {
                if j == i {
                    assert(texts(reps@)[j] == rep@);
                } else {
                    assert(texts(reps@)[j] == texts(old_reps)[j]);
                }
            }
        }
        i += 1;
    }
    let r = weave(gaps, &reps);
    proof {
        let rs = texts(reps@);
        assert(rs =~= gv.map_values(|g: Seq<Option<Seq<char>>>| block_out(g)));
    }
    r
}

/// `html` with its code blocks, as the `regex` crate finds them, replaced;
/// `html` itself if the pattern were not accepted.
pub open spec fn highlighted(html: Seq<char>) -> Seq<char> {
    if regex_accepts(code_block_pattern()) {
        highlighted_blocks(regex_gaps(code_block_pattern(), html), regex_groups(code_block_pattern(), html))
    } else {
        html
    }
}

/// `html` with its code blocks, as `regex_lite` finds them, replaced; `html`
/// itself if the pattern were not accepted.
pub open spec fn lite_highlighted(html: Seq<char>) -> Seq<char> {
    if lite_regex_accepts(code_block_pattern()) {
        highlighted_blocks(
            lite_regex_gaps(code_block_pattern(), html),
            lite_regex_groups(code_block_pattern(), html),
        )
    } else {
        html
    }
}

/// Replaces each fenced code block with a language in the HTML by its
/// highlighted form; `mermaid` blocks, and blocks that fail to highlight,
/// stay as they are.
pub fn highlight_code_blocks(html: &str) -> (r: String)
    ensures
        r@ == highlighted(html@),
{
    let re = match compile_regex(code_block_pattern_text()) {
        Some(re) => re,
        None => return html.to_string(),
    };
    let gaps = regex_split(&re, html);
    let groups = regex_captures(&re, html);
    replace_blocks(&gaps, &groups)
}

/// The same replacement with the blocks found by `regex_lite`.
pub fn highlight_code_blocks_lite(html: &str) -> (r: String)
    ensures
        r@ == lite_highlighted(html@),
{
    let re = match compile_lite_regex(code_block_pattern_text()) {
        Some(re) => re,
        None => return html.to_string(),
    };
    let gaps = lite_regex_split(&re, html);
    let groups = lite_regex_captures(&re, html);
    replace_blocks(&gaps, &groups)
}

/// The HTML the parser gives for a markdown text: comrak's rendering under
/// the editor's settings, with its code blocks highlighted.
pub open spec fn parsed_html(input: Seq<char>) -> Seq<char> {
    highlighted(comrak_html(input, editor_markdown_settings()))
}

/// The HTML the preview gives for a markdown text: the same rendering, with
/// the code blocks found by `regex_lite`.
pub open spec fn previewed_html(input: Seq<char>) -> Seq<char> {
    lite_highlighted(comrak_html(input, editor_markdown_settings()))
}

/// The preview and the parser render a text alike whenever the `regex` crate
/// and `regex_lite` find the same code blocks in comrak's HTML of it.
pub proof fn law_preview_matches_parser(input: Seq<char>)
    requires
        regex_accepts(code_block_pattern()) == lite_regex_accepts(code_block_pattern()),
        regex_gaps(code_block_pattern(), comrak_html(input, editor_markdown_settings()))
            == lite_regex_gaps(code_block_pattern(), comrak_html(input, editor_markdown_settings())),
        regex_groups(code_block_pattern(), comrak_html(input, editor_markdown_settings()))
            == lite_regex_groups(code_block_pattern(), comrak_html(input, editor_markdown_settings())),
    ensures
        previewed_html(input) == parsed_html(input),
{
}

/// The editor renders with every extension on: the GitHub extensions
/// (strikethrough, tables, autolinks, task lists, footnotes, description
/// lists, alerts), dollar math, wiki links with the title after the pipe,
/// and raw HTML passed through; heading ids have no prefix and `---` opens
/// the front matter.
pub proof fn law_editor_extensions()
    ensures
        ({
            let s = editor_markdown_settings();
            &&& s.strikethrough && s.table && s.autolink && s.tasklist && s.footnotes
            &&& s.description_lists && s.alerts && s.math_dollars
            &&& s.wikilinks_title_after_pipe && s.unsafe_html
            &&& s.header_id_prefix == Some(Seq::<char>::empty())
            &&& s.front_matter_delimiter == Some("---"@)
        }),
{
}

// ---------------------------------------------------------------------------
// The parser
// ---------------------------------------------------------------------------

/// Renders the editor's markdown to HTML.
pub struct MarkdownParser;

impl MarkdownParser {
    /// The editor's rendering options.
    pub fn default_options() -> (r: MarkdownOptions)
        ensures
            r@ == editor_markdown_settings(),
            r.strikethrough && r.table && r.autolink && r.tasklist && r.footnotes,
            r.description_lists && r.alerts && r.math_dollars,
            r.wikilinks_title_after_pipe && r.unsafe_html,
            r.header_id_prefix matches Some(p) && p@.len() == 0,
            r.front_matter_delimiter matches Some(d) && d@ == "---"@,
    {
        MarkdownOptions {
            strikethrough: true,
            table: true,
            autolink: true,
            tasklist: true,
            footnotes: true,
            description_lists: true,
            alerts: true,
            math_dollars: true,
            header_id_prefix: Some(String::new()),
            front_matter_delimiter: Some(String::from_str("---")),
            wikilinks_title_after_pipe: true,
            unsafe_html: true,
        }
    }

    /// The HTML of a markdown text: comrak's rendering under the editor's
    /// options, with the code blocks highlighted.
    pub fn parse(input: &str) -> (r: String)
        ensures
            r@ == parsed_html(input@),
    {
        let html = markdown_to_html(input, &Self::default_options());
        highlight_code_blocks(html.as_str())
    }
}

/// The preview's rendering of a markdown text: the same options, with the
/// code blocks found by `regex_lite`.
pub fn render_markdown(input: &str) -> (r: String)
    ensures
        r@ == previewed_html(input@),
{
    let html = markdown_to_html(input, &MarkdownParser::default_options());
    highlight_code_blocks_lite(html.as_str())
}

} // verus!
