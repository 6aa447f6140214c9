//! The three ways of browsing a folder: the sidebar tree, Miller columns
//! and the breadcrumb with its dropdown, as state and key handling.
use vstd::prelude::*;
use crate::common::{copy_nodes, node_view, nodes_view, FileNode, NodeView};
use crate::text::{concat, str_equal};

verus! {

// ---------------------------------------------------------------------------
// Labels shared by the views
// ---------------------------------------------------------------------------

/// The accessible label of an entry: `Folder: ` or `File: ` and its name.
pub fn entry_label(is_dir: bool, name: &str) -> (r: String)
    ensures
        r@ == (if is_dir {
            "Folder: "@
        } else {
            "File: "@
        }) + name@,
{
    if is_dir {
        concat("Folder: ", name)
    } else {
        concat("File: ", name)
    }
}

// ---------------------------------------------------------------------------
// Sidebar tree
// ---------------------------------------------------------------------------

/// The deepest level that still indents further.
pub const MAX_INDENT_DEPTH: usize = 6;

/// The left padding of a tree row at `depth`, in pixels: 12, and 14 more per
/// level up to `MAX_INDENT_DEPTH` levels.
pub fn tree_indent_px(depth: usize) -> (r: usize)
    ensures
        r == 12 + 14 * (if depth <= MAX_INDENT_DEPTH {
            depth
        } else {
            MAX_INDENT_DEPTH
        }),
{
    let d = if depth <= MAX_INDENT_DEPTH {
        depth
    } else {
        MAX_INDENT_DEPTH
    };
    12 + 14 * d
}

/// The icon of a tree row: a down or right triangle for an open or closed
/// folder, a dash for a file.
pub fn tree_icon(is_dir: bool, expanded: bool) -> (r: &'static str)
    ensures
        r@ == (if is_dir {
            if expanded {
                "\u{25BE}"@
            } else {
                "\u{25B8}"@
            }
        } else {
            "\u{2013}"@
        }),
{
    if is_dir {
        if expanded {
            "\u{25BE}"
        } else {
            "\u{25B8}"
        }
    } else {
        "\u{2013}"
    }
}

/// What a key does on a row of the tree.
#[derive(Debug, PartialEq, Eq, Structural, Clone, Copy)]
pub enum TreeKey {
    /// Open or close the folder.
    Toggle,
    /// Switch to the file (through the unsaved-changes guard).
    OpenFile,
    Expand,
    Collapse,
    FocusNext,
    FocusPrevious,
    Ignore,
}

/// What a key does on a tree row: Enter or space toggles a folder or opens
/// a file; the right arrow opens a closed folder, the left arrow closes an
/// open one; the up and down arrows move the focus.
pub open spec fn tree_key_spec(key: Seq<char>, is_dir: bool, expanded: bool) -> TreeKey {
    if key == "Enter"@ || key == " "@ {
        if is_dir {
            TreeKey::Toggle
        } else {
            TreeKey::OpenFile
        }
    } else if key == "ArrowRight"@ && is_dir && !expanded {
        TreeKey::Expand
    } else if key == "ArrowLeft"@ && is_dir && expanded {
        TreeKey::Collapse
    } else if key == "ArrowDown"@ {
        TreeKey::FocusNext
    } else if key == "ArrowUp"@ {
        TreeKey::FocusPrevious
    } else {
        TreeKey::Ignore
    }
}

/// What a key does on a tree row.
pub fn tree_key(key: &str, is_dir: bool, expanded: bool) -> (r: TreeKey)
    ensures
        r == tree_key_spec(key@, is_dir, expanded),
{
    if str_equal(key, "Enter") || str_equal(key, " ") {
        if is_dir {
            TreeKey::Toggle
        } else {
            TreeKey::OpenFile
        }
    } else if str_equal(key, "ArrowRight") && is_dir && !expanded {
        TreeKey::Expand
    } else if str_equal(key, "ArrowLeft") && is_dir && expanded {
        TreeKey::Collapse
    } else if str_equal(key, "ArrowDown") {
        TreeKey::FocusNext
    } else if str_equal(key, "ArrowUp") {
        TreeKey::FocusPrevious
    } else {
        TreeKey::Ignore
    }
}

/// What the sidebar says when the filtered tree is empty.
pub fn empty_tree_message(query: &str) -> (r: &'static str)
    ensures
        r@ == (if query@.len() == 0 {
            "No .md files in this folder"@
        } else {
            "No files match your search"@
        }),
{
    if query.unicode_len() == 0 {
        "No .md files in this folder"
    } else {
        "No files match your search"
    }
}

// ---------------------------------------------------------------------------
// Miller columns
// ---------------------------------------------------------------------------

/// The columns shown and, for each, the path selected in it.
#[derive(Debug)]
pub struct MillerColumns {
    pub columns: Vec<Vec<FileNode>>,
    pub selected_paths: Vec<Option<String>>,
}

/// The values of the columns.
pub open spec fn columns_view(c: Seq<Vec<FileNode>>) -> Seq<Seq<NodeView>> {
    c.map_values(|v: Vec<FileNode>| nodes_view(v@))
}

/// The selected paths, as texts.
pub open spec fn selection_view(s: Seq<Option<String>>) -> Seq<Option<Seq<char>>> {
    s.map_values(
        |o: Option<String>|
            match o {
                Some(p) => Some(p@),
                None => None,
            },
    )
}

/// The first `n` entries, or all of them when there are fewer.
pub open spec fn kept<A>(s: Seq<A>, n: int) -> Seq<A> {
    if n <= s.len() {
        s.take(n)
    } else {
        s
    }
}

/// Whether a node has children to show in a next column.
pub open spec fn has_children(e: NodeView) -> bool {
    e.children matches Some(c) && c.len() > 0
}

impl MillerColumns {
    /// The columns for a (filtered) tree: one column with the tree and no
    /// selection, or none for an empty tree.
    pub fn from_tree(tree: Vec<FileNode>) -> (r: Self)
        ensures
            tree@.len() > 0 ==> columns_view(r.columns@) == seq![nodes_view(tree@)] && selection_view(
                r.selected_paths@,
            ) == seq![None::<Seq<char>>],
            tree@.len() == 0 ==> r.columns@.len() == 0 && r.selected_paths@.len() == 0,
    {
        if tree.len() > 0 {
            let mut columns: Vec<Vec<FileNode>> = Vec::new();
            columns.push(tree);
            let mut selected_paths: Vec<Option<String>> = Vec::new();
            selected_paths.push(None);
            let r = MillerColumns { columns, selected_paths };
            proof {
                assert(columns_view(r.columns@) =~= seq![nodes_view(r.columns@[0]@)]);
                assert(selection_view(r.selected_paths@) =~= seq![None::<Seq<char>>]);
            }
            r
        } else {
            MillerColumns { columns: Vec::new(), selected_paths: Vec::new() }
        }
    }

    /// An entry in column `col_index` was chosen. The columns and the
    /// selection after that column are dropped and the entry becomes the
    /// column's selection; a folder with children opens them in a new column
    /// (with nothing selected yet); a file is returned to be opened.
    pub fn click(&mut self, entry: &FileNode, col_index: usize) -> (open: Option<String>)
        requires
            col_index < old(self).selected_paths@.len(),
        ensures
            ({
                let e = node_view(*entry);
                let sel = selection_view(kept(old(self).selected_paths@, col_index + 1)).update(
                    col_index as int,
                    Some(e.path),
                );
                let cols = columns_view(kept(old(self).columns@, col_index + 1));
                if e.is_dir {
                    &&& open is None
                    &&& columns_view(final(self).columns@) == (if has_children(e) {
                        cols.push(e.children->0)
                    } else {
                        cols
                    })
                    &&& selection_view(final(self).selected_paths@) == (if has_children(e) {
                        sel.push(None)
                    } else {
                        sel
                    })
                } else {
                    &&& open matches Some(p) && p@ == e.path
                    &&& columns_view(final(self).columns@) == cols
                    &&& selection_view(final(self).selected_paths@) == sel
                }
            }),
    {
        let _len = self.selected_paths.len();
        let keep = col_index + 1;
        let ghost old_cols = self.columns@;
        let ghost old_sel = self.selected_paths@;
        self.columns.truncate(keep);
        self.selected_paths.truncate(keep);
        proof {
            assert(self.columns@ =~= kept(old_cols, keep as int));
            assert(self.selected_paths@ =~= kept(old_sel, keep as int));
        }
        self.selected_paths.set(col_index, Some(entry.path.clone()));
        proof {
            assert(selection_view(self.selected_paths@) =~= selection_view(kept(old_sel, keep as int)).update(
                col_index as int,
                Some(entry.path@),
            ));
            assert(columns_view(self.columns@) =~= columns_view(kept(old_cols, keep as int)));
        }
        if entry.is_dir {
            let nonempty = match &entry.children {
                Some(c) => c.len() > 0,
                None => false,
            };
            if nonempty {
                let children = match &entry.children {
                    Some(c) => copy_nodes(c),
                    None => Vec::new(),
                };
                let ghost before_cols = columns_view(self.columns@);
                let ghost before_sel = selection_view(self.selected_paths@);
                self.columns.push(children);
                self.selected_paths.push(None);
                proof {
                    crate::common::lemma_nodes_view(entry.children->0@);
                    assert(columns_view(self.columns@) =~= before_cols.push(node_view(*entry).children->0));
                    assert(selection_view(self.selected_paths@) =~= before_sel.push(None));
                }
            }
            None
        } else {
            Some(entry.path.clone())
        }
    }

    /// Whether an entry is highlighted: it is the selection of its column,
    /// or the open file.
    pub fn is_active(&self, col_index: usize, path: &str, active_file: &Option<String>) -> (r: bool)
        ensures
            r == ((col_index < self.selected_paths@.len() && selection_view(self.selected_paths@)[col_index as int]
                == Some(path@)) || (match active_file {
                Some(a) => a@ == path@,
                None => false,
            })),
    {
        let selected = if col_index < self.selected_paths.len() {
            match &self.selected_paths[col_index] {
                Some(s) => str_equal(s.as_str(), path),
                None => false,
            }
        } else {
            false
        };
        let open = match active_file {
            Some(a) => str_equal(a.as_str(), path),
            None => false,
        };
        selected || open
    }
}

/// What a key does on an entry of a column.
#[derive(Debug, PartialEq, Eq, Structural, Clone, Copy)]
pub enum ColumnKey {
    /// Choose the entry.
    Activate,
    FocusNext,
    FocusPrevious,
    /// Choose the folder, then focus the first entry of the next column.
    Expand,
    /// Focus the selected entry of the column before.
    Back,
    Ignore,
}

/// What a key does on an entry of column `col_index`: Enter or space
/// chooses it; the arrows move up and down, into a folder, and back to the
/// column before (not from the first column).
pub open spec fn column_key_spec(key: Seq<char>, is_dir: bool, col_index: nat) -> ColumnKey {
    if key == "Enter"@ || key == " "@ {
        ColumnKey::Activate
    } else if key == "ArrowDown"@ {
        ColumnKey::FocusNext
    } else if key == "ArrowUp"@ {
        ColumnKey::FocusPrevious
    } else if key == "ArrowRight"@ && is_dir {
        ColumnKey::Expand
    } else if key == "ArrowLeft"@ && col_index > 0 {
        ColumnKey::Back
    } else {
        ColumnKey::Ignore
    }
}

/// What a key does on an entry of a column.
pub fn column_key(key: &str, is_dir: bool, col_index: usize) -> (r: ColumnKey)
    ensures
        r == column_key_spec(key@, is_dir, col_index as nat),
        key@ == "Enter"@ ==> r == ColumnKey::Activate,
        key@ == " "@ ==> r == ColumnKey::Activate,
{
    proof {
        law_space_acts_as_enter(is_dir, col_index as nat);
    }
    if str_equal(key, "Enter") || str_equal(key, " ") {
        ColumnKey::Activate
    } else if str_equal(key, "ArrowDown") {
        ColumnKey::FocusNext
    } else if str_equal(key, "ArrowUp") {
        ColumnKey::FocusPrevious
    } else if str_equal(key, "ArrowRight") && is_dir {
        ColumnKey::Expand
    } else if str_equal(key, "ArrowLeft") && col_index > 0 {
        ColumnKey::Back
    } else {
        ColumnKey::Ignore
    }
}

// ---------------------------------------------------------------------------
// Breadcrumb dropdown
// ---------------------------------------------------------------------------

/// Where the breadcrumb's dropdown hangs: under the root (`-1`) or under a
/// path segment; `None` when it is closed.
#[derive(Debug)]
pub struct BreadcrumbDropdown {
    pub items: Vec<FileNode>,
    pub index: Option<i32>,
}

/// What choosing an entry of the dropdown asks for.
#[derive(Debug, Clone, PartialEq)]
pub enum DropdownChoice {
    /// List the folder and show its entries in the dropdown, at `reopen_at`.
    ListFolder { path: String, reopen_at: Option<i32> },
    /// Open the file.
    OpenFile { path: String },
}

impl BreadcrumbDropdown {
    /// A closed dropdown.
    pub fn new() -> (r: Self)
        ensures
            r.items@.len() == 0,
            r.index is None,
    {
        BreadcrumbDropdown { items: Vec::new(), index: None }
    }

    /// Whether the dropdown shows.
    pub fn is_open(&self) -> (r: bool)
        ensures
            r == self.index is Some,
    {
        self.index.is_some()
    }

    /// A listing arrived for the dropdown at `index`: its entries show there.
    pub fn show(&mut self, entries: Vec<FileNode>, index: Option<i32>)
        ensures
            nodes_view(final(self).items@) == nodes_view(entries@),
            final(self).index == index,
    {
        self.items = entries;
        self.index = index;
    }

    /// The dropdown closes: no entries, no position.
    pub fn close(&mut self)
        ensures
            final(self).items@.len() == 0,
            final(self).index is None,
    {
        self.items = Vec::new();
        self.index = None;
    }

    /// Escape closes an open dropdown; it answers whether it did.
    pub fn escape(&mut self) -> (closed: bool)
        ensures
            closed == old(self).index is Some,
            closed ==> final(self).items@.len() == 0 && final(self).index is None,
            !closed ==> nodes_view(final(self).items@) == nodes_view(old(self).items@) && final(self).index
                == old(self).index,
    {
        if self.index.is_some() {
            self.close();
            true
        } else {
            false
        }
    }

    /// An entry was chosen: the dropdown closes; a folder is to be listed
    /// (and shown at the position read after the close, which is none), a
    /// file to be opened.
    pub fn pick(&mut self, entry: &FileNode) -> (r: DropdownChoice)
        ensures
            final(self).items@.len() == 0,
            final(self).index is None,
            if entry.is_dir {
                r matches DropdownChoice::ListFolder { path, reopen_at } && path@ == entry.path@ && reopen_at is None
            } else {
                r matches DropdownChoice::OpenFile { path } && path@ == entry.path@
            },
    {
        self.close();
        if entry.is_dir {
            DropdownChoice::ListFolder { path: entry.path.clone(), reopen_at: self.index }
        } else {
            DropdownChoice::OpenFile { path: entry.path.clone() }
        }
    }
}

/// Whether segment `index` of `count` is the last, which marks the current
/// page.
pub fn is_last_segment(index: usize, count: usize) -> (r: bool)
    ensures
        r == (index + 1 == count),
{
    count > 0 && index == count - 1
}


/// The name the breadcrumb shows for the open folder: its last component.
pub fn root_name(folder: &str) -> (r: String)
    ensures
        r@ == crate::paths::last_segment(folder@),
{
    crate::paths::filename_from_path(folder)
}

/// The accessible label of the breadcrumb's root button.
pub fn root_label(folder: &str) -> (r: String)
    ensures
        r@ == "Root folder: "@ + crate::paths::last_segment(folder@),
{
    let name = root_name(folder);
    concat("Root folder: ", name.as_str())
}

/// Space and Enter act alike on a column entry, in every column and on files
/// and folders alike: both choose the entry.
pub proof fn law_space_acts_as_enter(is_dir: bool, col_index: nat)
    ensures
        column_key_spec(" "@, is_dir, col_index) == ColumnKey::Activate,
        column_key_spec("Enter"@, is_dir, col_index) == ColumnKey::Activate,
        column_key_spec(" "@, is_dir, col_index) == column_key_spec("Enter"@, is_dir, col_index),
{
}

} // verus!
