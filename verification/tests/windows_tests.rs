use rustynotes::windows::path_param;
use rustynotes::windows::{
    file_not_found, file_window_label, file_window_title, file_window_url_for, folder_window_target,
    new_file_window, record_opened_file, unreadable_file, FileWindows,
};

#[test]
fn file_windows_map_paths_to_labels() {
    let mut w = FileWindows::new();
    assert_eq!(w.get("/a.md"), None);
    w.insert("/a.md".into(), "file-1".into());
    w.insert("/b.md".into(), "file-2".into());
    assert_eq!(w.get("/a.md"), Some("file-1".to_string()));
    w.insert("/a.md".into(), "file-3".into());
    assert_eq!(w.get("/a.md"), Some("file-3".to_string()));
    w.remove_by_label("file-3");
    assert_eq!(w.get("/a.md"), None);
    assert_eq!(w.get("/b.md"), Some("file-2".to_string()));
}

#[test]
fn new_window_addresses() {
    assert_eq!(file_window_url_for("/My Notes/a b.md"), "/file?path=%2FMy%20Notes%2Fa%20b.md");
    assert_eq!(file_window_label("0123abcd"), "file-0123abcd");
    assert_eq!(file_window_title("/notes/plan.md"), "plan.md");
    assert_eq!(file_window_title("/"), "Untitled");
    let w = new_file_window("/n/x.md", "id");
    assert_eq!((w.label.as_str(), w.url.as_str(), w.title.as_str()), ("file-id", "/file?path=%2Fn%2Fx.md", "x.md"));
}

#[test]
fn open_messages() {
    assert_eq!(file_not_found("/x.md"), "File not found: /x.md");
    assert_eq!(unreadable_file("bad"), "Cannot read file as UTF-8: bad");
}

#[test]
fn opened_file_is_recorded() {
    let mut w = FileWindows::new();
    let mut recent = vec!["/b.md".to_string(), "/a.md".to_string()];
    assert!(record_opened_file(&mut w, &mut recent, "/a.md".into(), "file-9".into()));
    assert_eq!(recent, vec!["/a.md", "/b.md"]);
    assert_eq!(w.get("/a.md"), Some("file-9".to_string()));
    assert!(!record_opened_file(&mut w, &mut recent, "/a.md".into(), "file-10".into()));
    assert_eq!(w.get("/a.md"), Some("file-10".to_string()));
}

#[test]
fn folder_window_targets() {
    assert_eq!(folder_window_target("/notes/a.md"), Ok(("/notes".to_string(), "a.md".to_string())));
    assert_eq!(folder_window_target("/"), Err("File has no parent directory".to_string()));
    assert_eq!(folder_window_target("a.md"), Ok((String::new(), "a.md".to_string())));
}

#[test]
fn window_reads_back_its_path() {
    let url = file_window_url_for("/My Notes/a&b.md");
    let search = &url["/file".len()..];
    assert_eq!(search, "?path=%2FMy%20Notes%2Fa%26b.md");
    assert_eq!(path_param(search), Some("%2FMy%20Notes%2Fa%26b.md".to_string()));
    assert_eq!(path_param("??x=1&path=a%20b&path=c"), Some("a%20b".to_string()));
    assert_eq!(path_param("?x=1"), None);
    assert_eq!(path_param(""), None);
    assert_eq!(path_param("?path="), Some(String::new()));
}

#[test]
fn file_windows_compare_paths_as_paths() {
    let mut w = FileWindows::new();
    w.insert("/notes/a.md".into(), "file-1".into());
    assert_eq!(w.get("/notes//a.md"), Some("file-1".to_string()));
    assert_eq!(w.get("/notes/./a.md"), Some("file-1".to_string()));
    w.insert("/notes/a.md/".into(), "file-2".into());
    assert_eq!(w.get("/notes/a.md"), Some("file-2".to_string()));
    w.remove_by_label("file-2");
    assert_eq!(w.get("/notes/a.md"), None);
    assert_eq!(w.get("notes/a.md"), None);
}
