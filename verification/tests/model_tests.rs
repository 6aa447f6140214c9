use rustynotes::common::{
    default_active_theme, default_auto_save_delay_ms, default_editor_mode, default_nav_mode,
    default_true, EditorMode, NavMode, RenderingToggles, SaveMode, ThemeConfig, ThemeOverrides,
};

#[test]
fn test_editor_mode_default() {
    assert_eq!(EditorMode::default(), EditorMode::Wysiwyg);
}

#[test]
fn test_nav_mode_default() {
    assert_eq!(NavMode::default(), NavMode::Sidebar);
}

#[test]
fn test_save_mode_default() {
    assert_eq!(SaveMode::default(), SaveMode::Manual);
}

#[test]
fn mode_names_round_trip() {
    for m in [EditorMode::Source, EditorMode::Wysiwyg, EditorMode::Split, EditorMode::Preview] {
        assert_eq!(EditorMode::from_name(&m.name()), Some(m));
    }
    for m in [NavMode::Sidebar, NavMode::Miller, NavMode::Breadcrumb] {
        assert_eq!(NavMode::from_name(&m.name()), Some(m));
    }
    for m in [SaveMode::Manual, SaveMode::AfterDelay, SaveMode::OnFocusLoss] {
        assert_eq!(SaveMode::from_name(&m.name()), Some(m));
    }
}

#[test]
fn mode_names_are_the_configuration_words() {
    assert_eq!(EditorMode::Source.name(), "source");
    assert_eq!(NavMode::Miller.name(), "miller");
    assert_eq!(SaveMode::AfterDelay.name(), "after_delay");
    assert_eq!(SaveMode::OnFocusLoss.name(), "on_focus_loss");
    assert_eq!(EditorMode::from_name("Source"), None);
    assert_eq!(NavMode::from_name(""), None);
    assert_eq!(SaveMode::from_name("manual"), Some(SaveMode::Manual));
}

#[test]
fn configuration_defaults() {
    assert!(default_true());
    assert_eq!(default_editor_mode(), "wysiwyg");
    assert_eq!(default_nav_mode(), "sidebar");
    assert_eq!(default_active_theme(), "auto");
    assert_eq!(default_auto_save_delay_ms(), 1000);
    assert_eq!(EditorMode::from_name(&default_editor_mode()), Some(EditorMode::default()));
    assert_eq!(NavMode::from_name(&default_nav_mode()), Some(NavMode::default()));
}

#[test]
fn theme_and_rendering_defaults() {
    let t = ThemeConfig::default();
    assert_eq!(t.active, "auto");
    assert!(t.overrides.colors.is_empty());
    let o = ThemeOverrides::default();
    assert!(o.typography.is_empty() && o.spacing.is_empty());
    let r = RenderingToggles::default();
    assert!(r.render_math && r.render_diagrams && r.render_frontmatter);
    assert!(r.show_line_numbers && r.render_wikilinks);
}
