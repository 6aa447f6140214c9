use rustynotes::common::FileNode;
use rustynotes::tree::{arrange_listing, filter_by_query, filter_md_entries, keep_in_listing, sidebar_tree, sort_listing};

fn file(path: &str) -> FileNode {
    FileNode { name: path.rsplit('/').next().unwrap().into(), path: path.into(), is_dir: false, children: None }
}

fn dir(path: &str, children: Option<Vec<FileNode>>) -> FileNode {
    FileNode { name: path.rsplit('/').next().unwrap().into(), path: path.into(), is_dir: true, children }
}

#[test]
fn markdown_filter() {
    let tree = vec![
        dir("/n/empty", Some(vec![file("/n/empty/x.txt")])),
        dir("/n/none", None),
        dir("/n/w", Some(vec![file("/n/w/a.md"), file("/n/w/b.txt")])),
        file("/n/c.md"),
        file("/n/d.txt"),
    ];
    let md = filter_md_entries(&tree);
    assert_eq!(md, vec![dir("/n/w", Some(vec![file("/n/w/a.md")])), file("/n/c.md")]);
    assert_eq!(filter_md_entries(&md), md);
}

#[test]
fn query_filter() {
    let tree = vec![dir("/n/Week", Some(vec![file("/n/Week/Plan.md"), file("/n/Week/notes.md")])), file("/n/plan-b.md")];
    let hits = filter_by_query(&tree, "plan");
    assert_eq!(hits, vec![dir("/n/Week", Some(vec![file("/n/Week/Plan.md")])), file("/n/plan-b.md")]);
    assert!(filter_by_query(&tree, "zzz").is_empty());
    assert_eq!(sidebar_tree(&tree, ""), tree);
}

#[test]
fn listing_rules() {
    assert!(keep_in_listing("a.md", false));
    assert!(keep_in_listing("docs", true));
    assert!(!keep_in_listing(".git", true));
    assert!(!keep_in_listing("a.txt", false));
    let entries = vec![file("/n/b.md"), file("/n/A.md"), dir("/n/zeta", Some(vec![])), file("/n/.x.md"), file("/n/c.txt"), dir("/n/Alpha", Some(vec![]))];
    let listed = arrange_listing(entries);
    let names: Vec<&str> = listed.iter().map(|e| e.name.as_str()).collect();
    assert_eq!(names, vec!["Alpha", "zeta", "A.md", "b.md"]);
    let sorted = sort_listing(vec![file("/n/b.md"), file("/n/B.md"), file("/n/a.md")]);
    let names: Vec<&str> = sorted.iter().map(|e| e.name.as_str()).collect();
    assert_eq!(names, vec!["a.md", "b.md", "B.md"]);
}

#[test]
fn listing_is_folders_first_then_by_name() {
    let entries = vec![
        file("/n/notes.md"),
        dir("/n/subfolder", Some(vec![file("/n/subfolder/nested.md")])),
        file("/n/hello.md"),
        file("/n/readme.txt"),
        file("/n/.hidden"),
    ];
    let listed = arrange_listing(entries);
    assert_eq!(listed.len(), 3);
    assert_eq!(listed[0].name, "subfolder");
    assert!(listed[0].is_dir);
    assert_eq!(listed[1].name, "hello.md");
    assert_eq!(listed[2].name, "notes.md");
    assert_eq!(listed[0].children.as_ref().unwrap()[0].name, "nested.md");
}

#[test]
fn markdown_and_name_filters_commute() {
    let tree = vec![
        dir("/n/Plans", Some(vec![file("/n/Plans/plan.txt"), file("/n/Plans/Plan-A.md"), dir("/n/Plans/old", Some(vec![file("/n/Plans/old/plan.txt")]))])),
        dir("/n/other", Some(vec![file("/n/other/x.md")])),
        file("/n/PLAN.md"),
        file("/n/plan.doc"),
    ];
    let a = filter_by_query(&filter_md_entries(&tree), "Plan");
    let b = filter_md_entries(&filter_by_query(&tree, "Plan"));
    assert_eq!(a, b);
    assert_eq!(a, vec![dir("/n/Plans", Some(vec![file("/n/Plans/Plan-A.md")])), file("/n/PLAN.md")]);
}
