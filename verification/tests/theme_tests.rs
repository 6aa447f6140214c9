use rustynotes::common::{ThemeData, ThemeOverrides};
use rustynotes::theme::{lookup_setting, resolve_theme, set_setting, theme_color, theme_declarations, typography_css_prop};

fn pairs(v: &[(&str, &str)]) -> Vec<(String, String)> {
    v.iter().map(|(a, b)| (a.to_string(), b.to_string())).collect()
}

fn theme(name: &str) -> ThemeData {
    ThemeData { name: name.into(), colors: pairs(&[("bg-secondary", "#111")]), typography: vec![], spacing: vec![] }
}

#[test]
fn theme_resolution() {
    assert_eq!(resolve_theme("dark", "light", theme("light"), theme("dark")).name, "dark");
    assert_eq!(resolve_theme("light", "dark", theme("light"), theme("dark")).name, "light");
    assert_eq!(resolve_theme("auto", "dark", theme("light"), theme("dark")).name, "dark");
    assert_eq!(resolve_theme("auto", "light", theme("light"), theme("dark")).name, "light");
    assert_eq!(resolve_theme("sepia", "dark", theme("light"), theme("dark")).name, "light");
}

#[test]
fn typography_properties() {
    assert_eq!(typography_css_prop("body-font"), "--font-body");
    assert_eq!(typography_css_prop("body-size"), "--font-size");
    assert_eq!(typography_css_prop("mono-font"), "--font-mono");
    assert_eq!(typography_css_prop("line-height"), "--line-height");
    assert_eq!(typography_css_prop("letter-spacing"), "--letter-spacing");
}

#[test]
fn declarations_in_order() {
    let t = ThemeData {
        name: "x".into(),
        colors: pairs(&[("bg", "#000")]),
        typography: pairs(&[("body-size", "15px")]),
        spacing: pairs(&[("gap", "4px")]),
    };
    let o = ThemeOverrides { colors: pairs(&[("bg", "#fff")]), typography: vec![], spacing: vec![] };
    assert_eq!(
        theme_declarations(&t, Some(&o)),
        pairs(&[("--bg", "#000"), ("--font-size", "15px"), ("--gap", "4px"), ("--bg", "#fff")])
    );
    assert_eq!(theme_declarations(&t, None).len(), 3);
}

#[test]
fn title_color_prefers_overrides() {
    let t = theme("light");
    assert_eq!(theme_color(&t, None), Some("#111".to_string()));
    let o = ThemeOverrides { colors: pairs(&[("bg-secondary", "#222")]), typography: vec![], spacing: vec![] };
    assert_eq!(theme_color(&t, Some(&o)), Some("#222".to_string()));
    let none = ThemeData { name: "n".into(), colors: vec![], typography: vec![], spacing: vec![] };
    assert_eq!(theme_color(&none, Some(&ThemeOverrides::default())), None);
}

#[test]
fn settings_lookup_and_update() {
    let mut s = pairs(&[("a", "1"), ("b", "2"), ("a", "3")]);
    assert_eq!(lookup_setting(&s, "a"), Some("1".to_string()));
    set_setting(&mut s, "a".into(), "9".into());
    assert_eq!(lookup_setting(&s, "a"), Some("9".to_string()));
    assert_eq!(lookup_setting(&s, "b"), Some("2".to_string()));
    set_setting(&mut s, "c".into(), "4".into());
    assert_eq!(s, pairs(&[("a", "9"), ("b", "2"), ("a", "3"), ("c", "4")]));
}
