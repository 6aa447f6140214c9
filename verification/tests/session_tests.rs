use rustynotes::session::{export_status_message, opens_settings, preview_html, search_shortcut_label};
use rustynotes::common::{EditorMode, NavMode, SaveMode};
use rustynotes::session::{
    auto_save_interval, saves_on_focus_loss, shortcut, startup_folder, AppState, PromptChoice,
    SaveIndicator, SaveStart, SaveStatus, Shortcut, SwitchAction,
};

#[test]
fn fresh_session() {
    let s = AppState::new();
    assert_eq!(s.editor_mode, EditorMode::Wysiwyg);
    assert_eq!(s.nav_mode, NavMode::Sidebar);
    assert_eq!(s.save_status, SaveStatus::Idle);
    assert_eq!(s.display_name(), "Untitled");
    assert_eq!(s.indicator(), SaveIndicator::Blank);
}

#[test]
fn saving_a_new_document() {
    let mut s = AppState::new();
    s.edit("hello".into());
    assert!(s.is_dirty);
    assert_eq!(s.indicator(), SaveIndicator::Unsaved);
    assert_eq!(s.save_start(), SaveStart::AskPath { default_name: "Untitled.md".into() });
    assert_eq!(s.save_path_chosen(Ok(None)), None);
    assert_eq!(s.save_path_chosen(Err("dialog".into())), None);
    assert_eq!(s.save_status, SaveStatus::Error("dialog".into()));
    assert_eq!(s.save_path_chosen(Ok(Some("/n/a.md".into()))), Some("/n/a.md".to_string()));
    assert_eq!(s.save_start(), SaveStart::Write { path: "/n/a.md".into(), content: "hello".into() });
    s.begin_write(42);
    assert_eq!((s.save_status.clone(), s.last_save_timestamp), (SaveStatus::Saving, Some(42)));
    s.finish_write(Ok(()));
    assert!(!s.is_dirty);
    assert_eq!(s.indicator(), SaveIndicator::Saved);
    s.settle_saved();
    assert_eq!(s.save_status, SaveStatus::Idle);
    assert_eq!(s.display_name(), "a.md");
    s.begin_write(43);
    s.finish_write(Err("disk".into()));
    assert_eq!(s.indicator(), SaveIndicator::Error("disk".into()));
    s.settle_saved();
    assert_eq!(s.save_status, SaveStatus::Error("disk".into()));
}

#[test]
fn shortcuts_need_the_modifier() {
    assert_eq!(shortcut("s", true), Some(Shortcut::Save));
    assert_eq!(shortcut("s", false), None);
    assert_eq!(shortcut("n", true), Some(Shortcut::NewFile));
    assert_eq!(shortcut("3", true), Some(Shortcut::Mode(EditorMode::Split)));
    assert_eq!(shortcut("5", true), None);
    let mut s = AppState::new();
    s.edit("x".into());
    assert!(!s.apply_shortcut(Shortcut::Mode(EditorMode::Source)));
    assert_eq!(s.editor_mode, EditorMode::Source);
    assert!(s.apply_shortcut(Shortcut::Save));
    assert!(!s.apply_shortcut(Shortcut::NewFile));
    assert_eq!((s.active_file_content.as_str(), s.is_dirty), ("", false));
}

#[test]
fn command_k_toggles_the_search() {
    assert_eq!(shortcut("k", true), Some(Shortcut::ToggleSearch));
    assert_eq!(shortcut("k", false), None);
    let mut s = AppState::new();
    assert!(!s.show_search);
    assert!(!s.apply_shortcut(Shortcut::ToggleSearch));
    assert!(s.show_search);
    assert!(!s.apply_shortcut(Shortcut::ToggleSearch));
    assert!(!s.show_search);
}

#[test]
fn auto_save_rules() {
    assert_eq!(auto_save_interval(Some(SaveMode::AfterDelay), 1000), Some(1000));
    assert_eq!(auto_save_interval(Some(SaveMode::AfterDelay), 50), Some(200));
    assert_eq!(auto_save_interval(Some(SaveMode::Manual), 1000), None);
    assert_eq!(auto_save_interval(None, 1000), None);
    assert!(saves_on_focus_loss(Some(SaveMode::OnFocusLoss), true, true));
    assert!(!saves_on_focus_loss(Some(SaveMode::OnFocusLoss), true, false));
    assert!(!saves_on_focus_loss(Some(SaveMode::AfterDelay), true, true));
    let mut s = AppState::new();
    assert!(!s.auto_save_due());
    s.edit("x".into());
    assert!(s.auto_save_due());
}

#[test]
fn switching_files() {
    let mut s = AppState::new();
    assert_eq!(s.guard_file_switch("/b.md".into()), SwitchAction::LoadNow);
    s.edit("changed".into());
    assert_eq!(s.guard_file_switch("/b.md".into()), SwitchAction::Prompt);
    assert_eq!(s.pending_file_switch, Some("/b.md".to_string()));
    assert_eq!(s.resolve_switch_prompt(PromptChoice::Cancel), None);
    assert_eq!(s.pending_file_switch, None);
    s.guard_file_switch("/b.md".into());
    assert_eq!(s.resolve_switch_prompt(PromptChoice::Discard), Some(("/b.md".to_string(), false)));
    assert!(!s.is_dirty);
    s.edit("again".into());
    s.save_mode = Some(SaveMode::AfterDelay);
    assert_eq!(s.guard_file_switch("/c.md".into()), SwitchAction::SaveThenLoad);
    s.save_mode = Some(SaveMode::Manual);
    s.guard_file_switch("/c.md".into());
    assert_eq!(s.resolve_switch_prompt(PromptChoice::Save), Some(("/c.md".to_string(), true)));
}

#[test]
fn loading_files() {
    let mut s = AppState::new();
    s.begin_load("/n/a.md".into());
    assert!(s.suppress_dirty);
    s.finish_load(Ok("text".into()));
    s.edit("text normalized".into());
    assert!(!s.is_dirty);
    s.end_suppression();
    s.edit("user edit".into());
    assert!(s.is_dirty);
    s.finish_load(Err("gone".into()));
    assert_eq!(s.active_file_content, "user edit");
}

#[test]
fn configuration_modes_and_startup() {
    let mut s = AppState::new();
    s.sync_modes_from_config("split", "miller");
    assert_eq!((s.editor_mode, s.nav_mode), (EditorMode::Split, NavMode::Miller));
    s.sync_modes_from_config("bogus", "breadcrumb");
    assert_eq!((s.editor_mode, s.nav_mode), (EditorMode::Split, NavMode::Breadcrumb));
    assert_eq!(startup_folder(&vec!["/a".into(), "/b".into()]), Some("/a".to_string()));
    assert_eq!(startup_folder(&vec![]), None);
}

#[test]
fn source_editor_changes() {
    let mut s = AppState::new();
    assert!(!s.source_edit(String::new()));
    assert!(s.source_edit("# T".into()));
    assert!(s.is_dirty);
    assert!(s.rendered_html.contains("<h1"));
    assert!(!s.source_edit("# T".into()));
    assert_eq!(export_status_message(Some("/out/notes.html")), "Saved notes.html");
    assert_eq!(export_status_message(None), "Could not export");
    assert!(opens_settings(",", true));
    assert!(!opens_settings(",", false));
    assert!(!opens_settings(".", true));
    assert_eq!(search_shortcut_label(true), "\u{2318}K");
    assert_eq!(search_shortcut_label(false), "Ctrl+K");
}

#[test]
fn preview_of_documents() {
    assert_eq!(preview_html(""), "");
    assert!(preview_html("**b**").contains("<strong>b</strong>"));
}
