//! The data model shared by the editor's parts: file-tree nodes, search
//! hits, the editor, navigation and save modes, theme data, and the
//! defaults that configuration fields take when they are left out.
use vstd::prelude::*;
use crate::text::str_equal;

verus! {

// ---------------------------------------------------------------------------
// File tree
// ---------------------------------------------------------------------------

/// A node of the file tree. Paths are kept as text.
#[derive(Debug, PartialEq)]
pub struct FileNode {
    pub name: String,
    pub path: String,
    pub is_dir: bool,
    pub children: Option<Vec<FileNode>>,
}

/// An entry of a directory listing; it has the shape of a file-tree node.
pub type FileEntry = FileNode;

/// The mathematical value of a file-tree node.
pub struct NodeView {
    pub name: Seq<char>,
    pub path: Seq<char>,
    pub is_dir: bool,
    pub children: Option<Seq<NodeView>>,
}

/// The value of a node.
pub open spec fn node_view(n: FileNode) -> NodeView
    decreases n, 1int,
{
    NodeView {
        name: n.name@,
        path: n.path@,
        is_dir: n.is_dir,
        children: match n.children {
            Some(v) => Some(nodes_view(v@)),
            None => None,
        },
    }
}

/// The values of a sequence of nodes.
pub open spec fn nodes_view(s: Seq<FileNode>) -> Seq<NodeView>
    decreases s, 0int,
{
    if s.len() == 0 {
        Seq::empty()
    } else {
        nodes_view(s.subrange(0, s.len() - 1)).push(node_view(s[s.len() - 1]))
    }
}

/// `nodes_view` keeps the length and maps each node to its value.
pub proof fn lemma_nodes_view(s: Seq<FileNode>)
    ensures
        nodes_view(s).len() == s.len(),
        forall|i: int| 0 <= i < s.len() ==> #[trigger] nodes_view(s)[i] == node_view(s[i]),
    decreases s.len(),
{
    if s.len() > 0 {
        lemma_nodes_view(s.subrange(0, s.len() - 1));
    }
}

/// `nodes_view` of a sequence with one more node.
pub proof fn lemma_nodes_view_push(s: Seq<FileNode>, n: FileNode)
    ensures
        nodes_view(s.push(n)) == nodes_view(s).push(node_view(n)),
{
    assert(s.push(n).subrange(0, s.len() as int) =~= s);
}

/// A copy of a node and all its descendants.
pub fn copy_node(n: &FileNode) -> (r: FileNode)
    ensures
        node_view(r) == node_view(*n),
    decreases n,
{
    let children = match &n.children {
        Some(v) => Some(copy_nodes(v)),
        None => None,
    };
    FileNode { name: n.name.clone(), path: n.path.clone(), is_dir: n.is_dir, children }
}

/// A copy of a sequence of nodes.
pub fn copy_nodes(v: &Vec<FileNode>) -> (r: Vec<FileNode>)
    ensures
        nodes_view(r@) == nodes_view(v@),
    decreases v,
{
    let mut out: Vec<FileNode> = Vec::new();
    let mut i: usize = 0;
    while i < v.len()
        invariant
            i <= v.len(),
            nodes_view(out@) == nodes_view(v@.take(i as int)),
        decreases v.len() - i,
    {
        let c = copy_node(&v[i]);
        proof {
            lemma_nodes_view_push(out@, c);
            assert(v@.take(i + 1) =~= v@.take(i as int).push(v@[i as int]));
            lemma_nodes_view_push(v@.take(i as int), v@[i as int]);
        }
        out.push(c);
        i += 1;
    }
    proof {
        assert(v@.take(v@.len() as int) =~= v@);
    }
    out
}

/// A search hit: the file and, for a hit in its text, the matching line.
#[derive(Debug, Clone, PartialEq)]
pub struct SearchResult {
    pub path: String,
    pub name: String,
    pub context: String,
}

// ---------------------------------------------------------------------------
// Modes
// ---------------------------------------------------------------------------

/// How the open document is edited and shown.
#[derive(Debug, Clone, Copy, PartialEq, Eq, Structural)]
pub enum EditorMode {
    Source,
    Wysiwyg,
    Split,
    Preview,
}

/// The name of an editor mode as it is written in configuration.
pub open spec fn editor_mode_name(m: EditorMode) -> Seq<char> {
    match m {
        EditorMode::Source => "source"@,
        EditorMode::Wysiwyg => "wysiwyg"@,
        EditorMode::Split => "split"@,
        EditorMode::Preview => "preview"@,
    }
}

/// The editor mode a configuration name stands for, if any.
pub open spec fn editor_mode_named(s: Seq<char>) -> Option<EditorMode> {
    if s == "source"@ {
        Some(EditorMode::Source)
    } else if s == "wysiwyg"@ {
        Some(EditorMode::Wysiwyg)
    } else if s == "split"@ {
        Some(EditorMode::Split)
    } else if s == "preview"@ {
        Some(EditorMode::Preview)
    } else {
        None
    }
}

impl Default for EditorMode {
    /// The WYSIWYG editor.
    fn default() -> (r: Self)
        ensures
            r == EditorMode::Wysiwyg,
    {
        EditorMode::Wysiwyg
    }
}

impl EditorMode {
    /// The name of the mode as configuration writes it.
    pub fn name(&self) -> (r: String)
        ensures
            r@ == editor_mode_name(*self),
    {
        match self {
            EditorMode::Source => String::from_str("source"),
            EditorMode::Wysiwyg => String::from_str("wysiwyg"),
            EditorMode::Split => String::from_str("split"),
            EditorMode::Preview => String::from_str("preview"),
        }
    }

    /// The mode that a configuration name stands for, or `None`.
    pub fn from_name(s: &str) -> (r: Option<EditorMode>)
        ensures
            r == editor_mode_named(s@),
    {
        if str_equal(s, "source") {
            Some(EditorMode::Source)
        } else if str_equal(s, "wysiwyg") {
            Some(EditorMode::Wysiwyg)
        } else if str_equal(s, "split") {
            Some(EditorMode::Split)
        } else if str_equal(s, "preview") {
            Some(EditorMode::Preview)
        } else {
            None
        }
    }
}

/// How the file tree is browsed.
#[derive(Debug, Clone, Copy, PartialEq, Eq, Structural)]
pub enum NavMode {
    Sidebar,
    Miller,
    Breadcrumb,
}

/// The name of a navigation mode as it is written in configuration.
pub open spec fn nav_mode_name(m: NavMode) -> Seq<char> {
    match m {
        NavMode::Sidebar => "sidebar"@,
        NavMode::Miller => "miller"@,
        NavMode::Breadcrumb => "breadcrumb"@,
    }
}

/// The navigation mode a configuration name stands for, if any.
pub open spec fn nav_mode_named(s: Seq<char>) -> Option<NavMode> {
    if s == "sidebar"@ {
        Some(NavMode::Sidebar)
    } else if s == "miller"@ {
        Some(NavMode::Miller)
    } else if s == "breadcrumb"@ {
        Some(NavMode::Breadcrumb)
    } else {
        None
    }
}

impl Default for NavMode {
    /// The sidebar tree.
    fn default() -> (r: Self)
        ensures
            r == NavMode::Sidebar,
    {
        NavMode::Sidebar
    }
}

impl NavMode {
    /// The name of the mode as configuration writes it.
    pub fn name(&self) -> (r: String)
        ensures
            r@ == nav_mode_name(*self),
    {
        match self {
            NavMode::Sidebar => String::from_str("sidebar"),
            NavMode::Miller => String::from_str("miller"),
            NavMode::Breadcrumb => String::from_str("breadcrumb"),
        }
    }

    /// The mode that a configuration name stands for, or `None`.
    pub fn from_name(s: &str) -> (r: Option<NavMode>)
        ensures
            r == nav_mode_named(s@),
    {
        if str_equal(s, "sidebar") {
            Some(NavMode::Sidebar)
        } else if str_equal(s, "miller") {
            Some(NavMode::Miller)
        } else if str_equal(s, "breadcrumb") {
            Some(NavMode::Breadcrumb)
        } else {
            None
        }
    }
}

/// When the open document is written to disk.
#[derive(Debug, Clone, Copy, PartialEq, Eq, Structural)]
pub enum SaveMode {
    Manual,
    AfterDelay,
    OnFocusLoss,
}

/// The name of a save mode as it is written in configuration.
pub open spec fn save_mode_name(m: SaveMode) -> Seq<char> {
    match m {
        SaveMode::Manual => "manual"@,
        SaveMode::AfterDelay => "after_delay"@,
        SaveMode::OnFocusLoss => "on_focus_loss"@,
    }
}

/// The save mode a configuration name stands for, if any.
pub open spec fn save_mode_named(s: Seq<char>) -> Option<SaveMode> {
    if s == "manual"@ {
        Some(SaveMode::Manual)
    } else if s == "after_delay"@ {
        Some(SaveMode::AfterDelay)
    } else if s == "on_focus_loss"@ {
        Some(SaveMode::OnFocusLoss)
    } else {
        None
    }
}

impl Default for SaveMode {
    /// Saving only when asked to.
    fn default() -> (r: Self)
        ensures
            r == SaveMode::Manual,
    {
        SaveMode::Manual
    }
}

impl SaveMode {
    /// The name of the mode as configuration writes it.
    pub fn name(&self) -> (r: String)
        ensures
            r@ == save_mode_name(*self),
    {
        match self {
            SaveMode::Manual => String::from_str("manual"),
            SaveMode::AfterDelay => String::from_str("after_delay"),
            SaveMode::OnFocusLoss => String::from_str("on_focus_loss"),
        }
    }

    /// The mode that a configuration name stands for, or `None`.
    pub fn from_name(s: &str) -> (r: Option<SaveMode>)
        ensures
            r == save_mode_named(s@),
    {
        if str_equal(s, "manual") {
            Some(SaveMode::Manual)
        } else if str_equal(s, "after_delay") {
            Some(SaveMode::AfterDelay)
        } else if str_equal(s, "on_focus_loss") {
            Some(SaveMode::OnFocusLoss)
        } else {
            None
        }
    }
}

/// Each mode's name reads back as that mode, so a mode written to the
/// configuration is read back unchanged.
pub proof fn law_mode_names_round_trip(e: EditorMode, n: NavMode, s: SaveMode)
    ensures
        editor_mode_named(editor_mode_name(e)) == Some(e),
        nav_mode_named(nav_mode_name(n)) == Some(n),
        save_mode_named(save_mode_name(s)) == Some(s),
{
    reveal_strlit("source");
    reveal_strlit("wysiwyg");
    reveal_strlit("split");
    reveal_strlit("preview");
    reveal_strlit("sidebar");
    reveal_strlit("miller");
    reveal_strlit("breadcrumb");
    reveal_strlit("manual");
    reveal_strlit("after_delay");
    reveal_strlit("on_focus_loss");
    assert("wysiwyg"@.len() != "source"@.len());
    assert("split"@.len() != "source"@.len() && "split"@.len() != "wysiwyg"@.len());
    assert("preview"@.len() != "source"@.len() && "preview"@[0] != "wysiwyg"@[0]
        && "preview"@.len() != "split"@.len());
    assert("miller"@.len() != "sidebar"@.len());
    assert("breadcrumb"@.len() != "sidebar"@.len() && "breadcrumb"@.len() != "miller"@.len());
    assert("after_delay"@.len() != "manual"@.len());
    assert("on_focus_loss"@.len() != "manual"@.len() && "on_focus_loss"@.len()
        != "after_delay"@.len());
}

// ---------------------------------------------------------------------------
// Theme and rendering configuration
// ---------------------------------------------------------------------------

/// Key-value settings (colors, typography, spacing), in the order they were
/// given; for a key given twice, the first pair counts.
pub type Settings = Vec<(String, String)>;

/// Overrides of a theme's colors, typography and spacing.
#[derive(Debug, Clone)]
pub struct ThemeOverrides {
    pub colors: Settings,
    pub typography: Settings,
    pub spacing: Settings,
}

impl Default for ThemeOverrides {
    /// No overrides.
    fn default() -> (r: Self)
        ensures
            r.colors@.len() == 0,
            r.typography@.len() == 0,
            r.spacing@.len() == 0,
    {
        ThemeOverrides { colors: Vec::new(), typography: Vec::new(), spacing: Vec::new() }
    }
}

/// Which theme is active and how it is overridden.
#[derive(Debug, Clone)]
pub struct ThemeConfig {
    pub active: String,
    pub overrides: ThemeOverrides,
}

impl Default for ThemeConfig {
    /// The `auto` theme with no overrides.
    fn default() -> (r: Self)
        ensures
            r.active@ == "auto"@,
            r.overrides.colors@.len() == 0,
            r.overrides.typography@.len() == 0,
            r.overrides.spacing@.len() == 0,
    {
        ThemeConfig { active: default_active_theme(), overrides: ThemeOverrides::default() }
    }
}

/// Which optional renderings the preview performs.
#[derive(Debug, Clone, Copy, PartialEq, Eq, Structural)]
pub struct RenderingToggles {
    pub render_math: bool,
    pub render_diagrams: bool,
    pub render_frontmatter: bool,
    pub show_line_numbers: bool,
    pub render_wikilinks: bool,
}

impl Default for RenderingToggles {
    /// Every rendering on.
    fn default() -> (r: Self)
        ensures
            r.render_math && r.render_diagrams && r.render_frontmatter && r.show_line_numbers
                && r.render_wikilinks,
    {
        RenderingToggles {
            render_math: default_true(),
            render_diagrams: default_true(),
            render_frontmatter: default_true(),
            show_line_numbers: default_true(),
            render_wikilinks: default_true(),
        }
    }
}

/// A theme: its name and its colors, typography and spacing.
#[derive(Debug, Clone)]
pub struct ThemeData {
    pub name: String,
    pub colors: Settings,
    pub typography: Settings,
    pub spacing: Settings,
}

// ---------------------------------------------------------------------------
// Defaults of configuration fields
// ---------------------------------------------------------------------------

/// The value a boolean setting takes when the configuration leaves it out.
pub fn default_true() -> (r: bool)
    ensures
        r,
{
    true
}

/// The editor mode when the configuration leaves it out: `wysiwyg`.
pub fn default_editor_mode() -> (r: String)
    ensures
        r@ == "wysiwyg"@,
{
    String::from_str("wysiwyg")
}

/// The navigation mode when the configuration leaves it out: `sidebar`.
pub fn default_nav_mode() -> (r: String)
    ensures
        r@ == "sidebar"@,
{
    String::from_str("sidebar")
}

/// The active theme when the configuration leaves it out: `auto`.
pub fn default_active_theme() -> (r: String)
    ensures
        r@ == "auto"@,
{
    String::from_str("auto")
}

/// The auto-save delay when the configuration leaves it out: one second.
pub fn default_auto_save_delay_ms() -> (r: u64)
    ensures
        r == 1000,
{
    1000
}

/// The default modes are the ones the default names stand for.
pub proof fn law_default_mode_names()
    ensures
        editor_mode_named("wysiwyg"@) == Some(EditorMode::Wysiwyg),
        nav_mode_named("sidebar"@) == Some(NavMode::Sidebar),
{
    reveal_strlit("source");
    reveal_strlit("wysiwyg");
    reveal_strlit("sidebar");
    assert("wysiwyg"@.len() != "source"@.len());
}

} // verus!
