use rustynotes::onboarding::dismiss_label;
use rustynotes::onboarding::{storage_key, welcome_view, OnboardingState};

#[test]
fn onboarding_tips() {
    let mut s = OnboardingState::new();
    assert!(s.is_first_run());
    assert!(!s.is_tip_seen("search"));
    assert!(s.dismiss_tip("search"));
    assert!(s.is_tip_seen("search"));
    assert!(!s.dismiss_tip("search"));
    assert_eq!(s.tips_seen, vec!["search"]);
    s.mark_welcomed();
    assert!(!s.is_first_run());
    assert_eq!(storage_key(), "rustynotes:onboarding");
}

#[test]
fn welcome_screen() {
    let folders: Vec<String> = (0..7).map(|i| format!("/n/f{i}")).collect();
    let files = vec!["/n/a.md".to_string(), "b.md".to_string()];
    let v = welcome_view(true, &folders, &files, true);
    assert_eq!(v.title, "Welcome to RustyNotes");
    assert_eq!(v.folders.len(), 5);
    assert_eq!(v.folders[0], ("f0".to_string(), "/n/f0".to_string()));
    assert_eq!(v.files, vec![("a.md".to_string(), "/n".to_string()), ("b.md".to_string(), String::new())]);
    assert!(v.show_recent);
    assert_eq!(v.shortcuts, vec!["\u{2318}K", "\u{2318}E", "\u{2318}1/2/3", "\u{2318},"]);
    let w = welcome_view(false, &vec![], &vec![], false);
    assert_eq!(w.title, "RustyNotes");
    assert!(!w.show_recent);
    assert_eq!(w.shortcuts[0], "Ctrl+K");
}

#[test]
fn tip_dismiss_label() {
    assert_eq!(dismiss_label("Press K to search"), "Dismiss tip: Press K to search");
}
