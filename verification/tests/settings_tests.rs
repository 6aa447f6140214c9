use rustynotes::common::{SaveMode, ThemeOverrides};
use rustynotes::settings::{
    accent_color, categories, editor_mode_choices, line_height_choices, nav_mode_choices,
    save_mode_choice, save_mode_choices, set_accent_color, theme_choices,
};

#[test]
fn choice_lists() {
    assert_eq!(theme_choices()[0], ("auto".to_string(), "Auto (System)".to_string()));
    assert_eq!(editor_mode_choices().len(), 4);
    assert_eq!(nav_mode_choices()[1], ("miller".to_string(), "Miller Columns".to_string()));
    assert_eq!(save_mode_choices()[2], ("on_focus_loss".to_string(), "On Focus Loss".to_string()));
    assert_eq!(line_height_choices()[2].0, "1.6");
    let ids: Vec<String> = categories().into_iter().map(|c| c.id).collect();
    assert_eq!(ids, vec!["appearance", "editor", "preview", "advanced"]);
}

#[test]
fn save_mode_from_choice() {
    assert_eq!(save_mode_choice("after_delay"), SaveMode::AfterDelay);
    assert_eq!(save_mode_choice("on_focus_loss"), SaveMode::OnFocusLoss);
    assert_eq!(save_mode_choice("manual"), SaveMode::Manual);
    assert_eq!(save_mode_choice("whatever"), SaveMode::Manual);
}

#[test]
fn accent_color_setting() {
    let mut o = ThemeOverrides::default();
    assert_eq!(accent_color(&o), "#89b4fa");
    set_accent_color(&mut o, "#ff0000".into());
    assert_eq!(accent_color(&o), "#ff0000");
    set_accent_color(&mut o, "#00ff00".into());
    assert_eq!(o.colors.len(), 1);
    assert_eq!(accent_color(&o), "#00ff00");
}
