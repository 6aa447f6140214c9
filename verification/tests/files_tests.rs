use rustynotes::common::SearchResult;
use rustynotes::files::{
    extension_of_name, file_change_event, is_markdown_path, line_context, name_hit, query_key,
    search_step, CommandError, FsError, SEARCH_LIMIT,
};

#[test]
fn markdown_paths() {
    assert!(is_markdown_path("/notes/a.md"));
    assert!(is_markdown_path("a.b.md"));
    assert!(!is_markdown_path("/notes/.md"));
    assert!(!is_markdown_path("/notes/a.markdown"));
    assert!(!is_markdown_path("/notes/a.MD"));
    assert!(!is_markdown_path("/notes/md"));
    assert!(!is_markdown_path("/"));
    assert_eq!(extension_of_name("archive.tar.gz"), Some("gz".to_string()));
    assert_eq!(extension_of_name(".hidden"), None);
    assert_eq!(extension_of_name("trailing."), Some(String::new()));
    assert_eq!(extension_of_name(".."), None);
}

#[test]
fn error_messages() {
    assert_eq!(FsError::Io("denied".into()).message(), "IO error: denied");
    assert_eq!(FsError::NotFound("/x".into()).message(), "Path not found: /x");
    let e: CommandError = FsError::NotFound("/y".into()).into();
    assert_eq!(e, CommandError::Fs(FsError::NotFound("/y".into())));
    assert_eq!(e.message(), "Path not found: /y");
    assert_eq!(CommandError::Generic("plain".into()).message(), "plain");
}

#[test]
fn search_matches_names_then_lines() {
    let key = query_key("Plan");
    assert_eq!(key, "plan");
    assert!(name_hit("Project-PLAN.md", &key));
    assert!(!name_hit("notes.md", &key));
    assert_eq!(line_context("first\n   The plan is set   \nplan again", &key), Some("The plan is set".to_string()));
    assert_eq!(line_context("nothing here", &key), None);
    let long = format!("plan {}", "x".repeat(200));
    assert_eq!(line_context(&long, &key).unwrap().chars().count(), 120);
}

#[test]
fn search_steps_collect_hits() {
    let key = query_key("todo");
    let mut results: Vec<SearchResult> = Vec::new();
    assert!(search_step(&mut results, "/a/todo.md".into(), "todo.md".into(), None, &key));
    assert!(search_step(&mut results, "/a/b.md".into(), "b.md".into(), Some("x\n- TODO: write\n".into()), &key));
    assert!(search_step(&mut results, "/a/c.md".into(), "c.md".into(), Some("nothing".into()), &key));
    assert!(search_step(&mut results, "/a/d.md".into(), "d.md".into(), None, &key));
    assert_eq!(
        results,
        vec![
            SearchResult { path: "/a/todo.md".into(), name: "todo.md".into(), context: String::new() },
            SearchResult { path: "/a/b.md".into(), name: "b.md".into(), context: "- TODO: write".into() },
        ]
    );
}

#[test]
fn search_stops_at_the_limit() {
    let key = query_key("a");
    let mut results: Vec<SearchResult> = Vec::new();
    let mut more = true;
    let mut n = 0;
    while more {
        more = search_step(&mut results, format!("/{n}.md"), "a.md".into(), None, &key);
        n += 1;
    }
    assert_eq!(results.len(), SEARCH_LIMIT);
    assert_eq!(n, 50);
}

#[test]
fn change_events_keep_markdown_paths() {
    let paths = vec!["/n/a.md".to_string(), "/n/b.txt".to_string(), "/n/c.md".to_string()];
    let ev = file_change_event(&paths, "Modify(Any)".into()).unwrap();
    assert_eq!(ev.paths, vec!["/n/a.md", "/n/c.md"]);
    assert_eq!(ev.kind, "Modify(Any)");
    assert!(file_change_event(&vec!["/n/b.txt".to_string()], "Create".into()).is_none());
}

#[test]
fn search_never_exceeds_the_limit() {
    let key = query_key("x");
    let mut results: Vec<SearchResult> = Vec::new();
    for n in 0..49 {
        search_step(&mut results, format!("/{n}.md"), "x.md".into(), None, &key);
    }
    assert!(!search_step(&mut results, "/last.md".into(), "x.md".into(), None, &key));
    assert_eq!(results.len(), SEARCH_LIMIT);
}
