//! The settings window: its categories, the choices its lists offer, and
//! the settings those choices write.
use vstd::prelude::*;
use crate::common::{SaveMode, ThemeOverrides};
use crate::text::str_equal;
use crate::theme::{distinct_setting_keys, lookup_setting, set_setting, setting_value};

verus! {

/// The pairs of a list of choices, as texts.
pub open spec fn choices_view(v: Seq<(String, String)>) -> Seq<(Seq<char>, Seq<char>)> {
    v.map_values(|p: (String, String)| (p.0@, p.1@))
}

/// A list of choices from value and label texts.
fn choices(pairs: &[(&str, &str)]) -> (r: Vec<(String, String)>)
    ensures
        choices_view(r@) == pairs@.map_values(|p: (&str, &str)| (p.0@, p.1@)),
{
    let mut out: Vec<(String, String)> = Vec::new();
    let mut i: usize = 0;
    while i < pairs.len()
        invariant
            i <= pairs@.len(),
            choices_view(out@) == pairs@.take(i as int).map_values(|p: (&str, &str)| (p.0@, p.1@)),
        decreases pairs.len() - i,
    {
        let pair = pairs[i];
        let ghost before = choices_view(out@);
        out.push((String::from_str(pair.0), String::from_str(pair.1)));
        proof {
            assert(pair == pairs@[i as int]);
            assert(choices_view(out@) =~= before.push((pair.0@, pair.1@)));
            assert(pairs@.take(i + 1) =~= pairs@.take(i as int).push(pairs@[i as int]));
            assert(pairs@.take(i + 1).map_values(|p: (&str, &str)| (p.0@, p.1@)) =~= pairs@.take(
                i as int,
            ).map_values(|p: (&str, &str)| (p.0@, p.1@)).push((pair.0@, pair.1@)));
        }
        i += 1;
    }
    proof {
        assert(pairs@.take(pairs@.len() as int) =~= pairs@);
    }
    out
}

/// The theme choices: follow the system, light, dark.
pub fn theme_choices() -> (r: Vec<(String, String)>)
    ensures
        choices_view(r@) == seq![("auto"@, "Auto (System)"@), ("light"@, "Light"@), ("dark"@, "Dark"@)],
{
    let r = choices(&[("auto", "Auto (System)"), ("light", "Light"), ("dark", "Dark")]);
    proof {
        assert(choices_view(r@) =~= seq![("auto"@, "Auto (System)"@), ("light"@, "Light"@), ("dark"@, "Dark"@)]);
    }
    r
}

/// The editor mode choices.
pub fn editor_mode_choices() -> (r: Vec<(String, String)>)
    ensures
        choices_view(r@) == seq![
            ("wysiwyg"@, "Rich Text (WYSIWYG)"@),
            ("source"@, "Markdown Source"@),
            ("split"@, "Split View"@),
            ("preview"@, "Preview Only"@),
        ],
{
    let r = choices(
        &[
            ("wysiwyg", "Rich Text (WYSIWYG)"),
            ("source", "Markdown Source"),
            ("split", "Split View"),
            ("preview", "Preview Only"),
        ],
    );
    proof {
        assert(choices_view(r@) =~= seq![
            ("wysiwyg"@, "Rich Text (WYSIWYG)"@),
            ("source"@, "Markdown Source"@),
            ("split"@, "Split View"@),
            ("preview"@, "Preview Only"@),
        ]);
    }
    r
}

/// The navigation mode choices.
pub fn nav_mode_choices() -> (r: Vec<(String, String)>)
    ensures
        choices_view(r@) == seq![
            ("sidebar"@, "Sidebar Tree"@),
            ("miller"@, "Miller Columns"@),
            ("breadcrumb"@, "Breadcrumb Path"@),
        ],
{
    let r = choices(
        &[("sidebar", "Sidebar Tree"), ("miller", "Miller Columns"), ("breadcrumb", "Breadcrumb Path")],
    );
    proof {
        assert(choices_view(r@) =~= seq![
            ("sidebar"@, "Sidebar Tree"@),
            ("miller"@, "Miller Columns"@),
            ("breadcrumb"@, "Breadcrumb Path"@),
        ]);
    }
    r
}

/// The save mode choices.
pub fn save_mode_choices() -> (r: Vec<(String, String)>)
    ensures
        choices_view(r@) == seq![
            ("manual"@, "Manual (Cmd+S)"@),
            ("after_delay"@, "After Delay"@),
            ("on_focus_loss"@, "On Focus Loss"@),
        ],
{
    let r = choices(
        &[("manual", "Manual (Cmd+S)"), ("after_delay", "After Delay"), ("on_focus_loss", "On Focus Loss")],
    );
    proof {
        assert(choices_view(r@) =~= seq![
            ("manual"@, "Manual (Cmd+S)"@),
            ("after_delay"@, "After Delay"@),
            ("on_focus_loss"@, "On Focus Loss"@),
        ]);
    }
    r
}

/// The line height choices.
pub fn line_height_choices() -> (r: Vec<(String, String)>)
    ensures
        choices_view(r@) == seq![
            ("1.2"@, "1.2 (Compact)"@),
            ("1.4"@, "1.4 (Normal)"@),
            ("1.6"@, "1.6 (Comfortable)"@),
            ("1.8"@, "1.8 (Relaxed)"@),
        ],
{
    let r = choices(
        &[
            ("1.2", "1.2 (Compact)"),
            ("1.4", "1.4 (Normal)"),
            ("1.6", "1.6 (Comfortable)"),
            ("1.8", "1.8 (Relaxed)"),
        ],
    );
    proof {
        assert(choices_view(r@) =~= seq![
            ("1.2"@, "1.2 (Compact)"@),
            ("1.4"@, "1.4 (Normal)"@),
            ("1.6"@, "1.6 (Comfortable)"@),
            ("1.8"@, "1.8 (Relaxed)"@),
        ]);
    }
    r
}

/// The save mode a choice of the list selects: `after_delay` and
/// `on_focus_loss` their modes, anything else the manual mode.
pub fn save_mode_choice(value: &str) -> (r: SaveMode)
    ensures
        r == (if value@ == "after_delay"@ {
            SaveMode::AfterDelay
        } else if value@ == "on_focus_loss"@ {
            SaveMode::OnFocusLoss
        } else {
            SaveMode::Manual
        }),
{
    if str_equal(value, "after_delay") {
        SaveMode::AfterDelay
    } else if str_equal(value, "on_focus_loss") {
        SaveMode::OnFocusLoss
    } else {
        SaveMode::Manual
    }
}

/// The accent color shown when the overrides set none.
pub open spec fn default_accent() -> Seq<char> {
    "#89b4fa"@
}

/// The accent color: the overrides' `accent`, or the default.
pub fn accent_color(overrides: &ThemeOverrides) -> (r: String)
    ensures
        r@ == match setting_value(overrides.colors@, "accent"@) {
            Some(v) => v,
            None => default_accent(),
        },
{
    match lookup_setting(&overrides.colors, "accent") {
        Some(v) => v,
        None => String::from_str("#89b4fa"),
    }
}

/// Sets the accent color in the overrides.
pub fn set_accent_color(overrides: &mut ThemeOverrides, color: String)
    ensures
        setting_value(final(overrides).colors@, "accent"@) == Some(color@),
        forall|k: Seq<char>| k != "accent"@ ==> setting_value(final(overrides).colors@, k) == setting_value(
            old(overrides).colors@,
            k,
        ),
        final(overrides).typography@ == old(overrides).typography@,
        final(overrides).spacing@ == old(overrides).spacing@,
        distinct_setting_keys(old(overrides).colors@) ==> distinct_setting_keys(final(overrides).colors@),
{
    set_setting(&mut overrides.colors, String::from_str("accent"), color);
}

/// A category of the settings window: its id, label and icon.
#[derive(Debug)]
pub struct SettingsCategory {
    pub id: String,
    pub label: String,
    pub icon: String,
}

/// The categories of the settings window, in order.
pub fn categories() -> (r: Vec<SettingsCategory>)
    ensures
        r@.len() == 4,
        r@[0].id@ == "appearance"@ && r@[0].label@ == "Appearance"@,
        r@[1].id@ == "editor"@ && r@[1].label@ == "Editor"@,
        r@[2].id@ == "preview"@ && r@[2].label@ == "Preview"@,
        r@[3].id@ == "advanced"@ && r@[3].label@ == "Advanced"@,
{
    let mut out: Vec<SettingsCategory> = Vec::new();
    out.push(
        SettingsCategory {
            id: String::from_str("appearance"),
            label: String::from_str("Appearance"),
            icon: String::from_str("\u{1F3A8}"),
        },
    );
    out.push(
        SettingsCategory {
            id: String::from_str("editor"),
            label: String::from_str("Editor"),
            icon: String::from_str("\u{270F}\u{FE0F}"),
        },
    );
    out.push(
        SettingsCategory {
            id: String::from_str("preview"),
            label: String::from_str("Preview"),
            icon: String::from_str("\u{1F441}"),
        },
    );
    out.push(
        SettingsCategory {
            id: String::from_str("advanced"),
            label: String::from_str("Advanced"),
            icon: String::from_str("\u{1F50C}"),
        },
    );
    out
}

} // verus!
