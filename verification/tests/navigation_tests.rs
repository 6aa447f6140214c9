use rustynotes::navigation::{root_label, root_name};
use rustynotes::common::FileNode;
use rustynotes::navigation::{
    column_key, empty_tree_message, entry_label, is_last_segment, tree_icon, tree_indent_px, tree_key,
    BreadcrumbDropdown, ColumnKey, DropdownChoice, MillerColumns, TreeKey,
};

fn file(path: &str) -> FileNode {
    FileNode { name: path.rsplit('/').next().unwrap().into(), path: path.into(), is_dir: false, children: None }
}

fn dir(path: &str, children: Vec<FileNode>) -> FileNode {
    FileNode { name: path.rsplit('/').next().unwrap().into(), path: path.into(), is_dir: true, children: Some(children) }
}

#[test]
fn tree_rows() {
    assert_eq!(tree_indent_px(0), 12);
    assert_eq!(tree_indent_px(2), 40);
    assert_eq!(tree_indent_px(6), 96);
    assert_eq!(tree_indent_px(40), 96);
    assert_eq!(tree_icon(true, true), "\u{25BE}");
    assert_eq!(tree_icon(true, false), "\u{25B8}");
    assert_eq!(tree_icon(false, true), "\u{2013}");
    assert_eq!(entry_label(true, "notes"), "Folder: notes");
    assert_eq!(entry_label(false, "a.md"), "File: a.md");
    assert_eq!(empty_tree_message(""), "No .md files in this folder");
    assert_eq!(empty_tree_message("x"), "No files match your search");
}

#[test]
fn tree_keys() {
    assert_eq!(tree_key("Enter", true, false), TreeKey::Toggle);
    assert_eq!(tree_key(" ", false, false), TreeKey::OpenFile);
    assert_eq!(tree_key("ArrowRight", true, false), TreeKey::Expand);
    assert_eq!(tree_key("ArrowRight", true, true), TreeKey::Ignore);
    assert_eq!(tree_key("ArrowLeft", true, true), TreeKey::Collapse);
    assert_eq!(tree_key("ArrowLeft", false, true), TreeKey::Ignore);
    assert_eq!(tree_key("ArrowDown", false, false), TreeKey::FocusNext);
    assert_eq!(tree_key("ArrowUp", true, true), TreeKey::FocusPrevious);
    assert_eq!(tree_key("a", true, true), TreeKey::Ignore);
}

#[test]
fn column_keys() {
    assert_eq!(column_key("Enter", false, 0), ColumnKey::Activate);
    assert_eq!(column_key("ArrowRight", true, 0), ColumnKey::Expand);
    assert_eq!(column_key("ArrowRight", false, 0), ColumnKey::Ignore);
    assert_eq!(column_key("ArrowLeft", false, 0), ColumnKey::Ignore);
    assert_eq!(column_key("ArrowLeft", false, 1), ColumnKey::Back);
    assert_eq!(column_key("ArrowDown", false, 1), ColumnKey::FocusNext);
    assert_eq!(column_key("ArrowUp", false, 1), ColumnKey::FocusPrevious);
}

#[test]
fn miller_columns_follow_clicks() {
    let tree = vec![dir("/n/week", vec![file("/n/week/a.md"), file("/n/week/b.md")]), file("/n/c.md")];
    let mut m = MillerColumns::from_tree(tree);
    assert_eq!(m.columns.len(), 1);
    assert_eq!(m.selected_paths, vec![None]);
    let week = dir("/n/week", vec![file("/n/week/a.md"), file("/n/week/b.md")]);
    assert_eq!(m.click(&week, 0), None);
    assert_eq!(m.columns.len(), 2);
    assert_eq!(m.columns[1], vec![file("/n/week/a.md"), file("/n/week/b.md")]);
    assert_eq!(m.selected_paths, vec![Some("/n/week".to_string()), None]);
    assert_eq!(m.click(&file("/n/week/b.md"), 1), Some("/n/week/b.md".to_string()));
    assert_eq!(m.selected_paths, vec![Some("/n/week".to_string()), Some("/n/week/b.md".to_string())]);
    assert!(m.is_active(1, "/n/week/b.md", &None));
    assert!(m.is_active(0, "/n/c.md", &Some("/n/c.md".to_string())));
    assert!(!m.is_active(0, "/n/c.md", &None));
    assert_eq!(m.click(&file("/n/c.md"), 0), Some("/n/c.md".to_string()));
    assert_eq!(m.columns.len(), 1);
    assert_eq!(m.selected_paths, vec![Some("/n/c.md".to_string())]);
    let empty_dir = dir("/n/empty", vec![]);
    assert_eq!(m.click(&empty_dir, 0), None);
    assert_eq!(m.columns.len(), 1);
    assert!(MillerColumns::from_tree(vec![]).columns.is_empty());
}

#[test]
fn breadcrumb_dropdown() {
    let mut d = BreadcrumbDropdown::new();
    assert!(!d.is_open());
    assert!(!d.escape());
    d.show(vec![file("/n/a.md"), dir("/n/w", vec![])], Some(-1));
    assert!(d.is_open());
    assert_eq!(d.pick(&dir("/n/w", vec![])), DropdownChoice::ListFolder { path: "/n/w".into(), reopen_at: None });
    assert!(!d.is_open());
    d.show(vec![file("/n/a.md")], Some(0));
    assert_eq!(d.pick(&file("/n/a.md")), DropdownChoice::OpenFile { path: "/n/a.md".into() });
    d.show(vec![file("/n/a.md")], Some(1));
    assert!(d.escape());
    assert!(d.items.is_empty());
    assert!(is_last_segment(2, 3));
    assert!(!is_last_segment(0, 3));
    assert!(!is_last_segment(0, 0));
}

#[test]
fn breadcrumb_root() {
    assert_eq!(root_name("/home/u/notes"), "notes");
    assert_eq!(root_label("/home/u/notes"), "Root folder: notes");
}
