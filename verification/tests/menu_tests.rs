use rustynotes::menu::{clear_recent, decimal_text, file_menu, menu_action, recent_menu, MenuAction, MenuEntry};

fn item(id: &str, label: &str, enabled: bool) -> MenuEntry {
    MenuEntry::Item { id: id.into(), label: label.into(), enabled, accelerator: None }
}

#[test]
fn empty_recent_menu_has_placeholder() {
    assert_eq!(recent_menu(&vec![], &vec![]), vec![item("recent.empty", "No Recent Items", false)]);
}

#[test]
fn recent_menu_lists_files_and_folders() {
    let files = vec!["/n/a.md".to_string(), "/n/b.md".to_string()];
    let folders = vec!["/n".to_string()];
    assert_eq!(
        recent_menu(&files, &folders),
        vec![
            item("recent.header.files", "Recent Files", false),
            item("recent.file:0", "a.md", true),
            item("recent.file:1", "b.md", true),
            MenuEntry::Separator,
            item("recent.header.folders", "Recent Folders", false),
            item("recent.folder:0", "n", true),
            MenuEntry::Separator,
            item("recent.clear", "Clear Recent", true),
        ]
    );
    let only_folders = recent_menu(&vec![], &vec!["/".to_string()]);
    assert_eq!(
        only_folders,
        vec![
            item("recent.header.folders", "Recent Folders", false),
            item("recent.folder:0", "/", true),
            MenuEntry::Separator,
            item("recent.clear", "Clear Recent", true),
        ]
    );
}

#[test]
fn recent_menu_shows_ten_entries() {
    let files: Vec<String> = (0..12).map(|i| format!("/f{i}.md")).collect();
    let menu = recent_menu(&files, &vec![]);
    assert_eq!(menu.len(), 1 + 10 + 2);
    assert_eq!(menu[10], item("recent.file:9", "f9.md", true));
}

#[test]
fn menu_ids_lead_to_actions() {
    let files = vec!["/a.md".to_string(), "/b.md".to_string()];
    let folders = vec!["/n".to_string()];
    assert_eq!(menu_action("recent.file:1", &files, &folders), MenuAction::OpenRecentFile("/b.md".into()));
    assert_eq!(menu_action("recent.file:+0", &files, &folders), MenuAction::OpenRecentFile("/a.md".into()));
    assert_eq!(menu_action("recent.file:007", &files, &folders), MenuAction::Nothing);
    assert_eq!(menu_action("recent.file:01", &files, &folders), MenuAction::OpenRecentFile("/b.md".into()));
    assert_eq!(menu_action("recent.file:2", &files, &folders), MenuAction::Nothing);
    assert_eq!(menu_action("recent.file:", &files, &folders), MenuAction::Nothing);
    assert_eq!(menu_action("recent.file:x", &files, &folders), MenuAction::Nothing);
    assert_eq!(menu_action("recent.file:99999999999999999999999", &files, &folders), MenuAction::Nothing);
    assert_eq!(menu_action("recent.folder:0", &files, &folders), MenuAction::OpenRecentFolder("/n".into()));
    assert_eq!(menu_action("file.new", &files, &folders), MenuAction::NewFile);
    assert_eq!(menu_action("file.open-file", &files, &folders), MenuAction::OpenFile);
    assert_eq!(menu_action("file.open-folder", &files, &folders), MenuAction::OpenFolder);
    assert_eq!(menu_action("file.save", &files, &folders), MenuAction::Save);
    assert_eq!(menu_action("file.export", &files, &folders), MenuAction::Export);
    assert_eq!(menu_action("recent.clear", &files, &folders), MenuAction::ClearRecent);
    assert_eq!(menu_action("edit.undo", &files, &folders), MenuAction::Nothing);
}

#[test]
fn built_ids_read_back() {
    let files: Vec<String> = (0..10).map(|i| format!("/f{i}.md")).collect();
    for (i, entry) in recent_menu(&files, &vec![]).iter().enumerate().skip(1).take(10) {
        if let MenuEntry::Item { id, .. } = entry {
            assert_eq!(menu_action(id, &files, &vec![]), MenuAction::OpenRecentFile(files[i - 1].clone()));
        }
    }
    assert_eq!(decimal_text(0), "0");
    assert_eq!(decimal_text(1234), "1234");
}

#[test]
fn file_menu_layout() {
    if let MenuEntry::Submenu { label, entries } = file_menu(&vec![], &vec![]) {
        assert_eq!(label, "File");
        assert_eq!(entries.len(), 8);
        assert_eq!(
            entries[0],
            MenuEntry::Item { id: "file.new".into(), label: "New File".into(), enabled: true, accelerator: Some("CmdOrCtrl+N".into()) }
        );
        assert_eq!(
            entries[4],
            MenuEntry::Submenu { label: "Open Recent".into(), entries: vec![item("recent.empty", "No Recent Items", false)] }
        );
        assert_eq!(entries[7], item("file.export", "Export HTML\u{2026}", true));
    } else {
        panic!("the file menu is a submenu");
    }
}

#[test]
fn clearing_recent_lists() {
    let mut files = vec!["/a.md".to_string()];
    let mut folders = vec!["/n".to_string()];
    clear_recent(&mut files, &mut folders);
    assert!(files.is_empty() && folders.is_empty());
}
