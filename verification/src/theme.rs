//! Themes: which theme an `active` setting selects, and the CSS custom
//! properties that a theme and its overrides set on the document.
use vstd::prelude::*;
use crate::common::{Settings, ThemeData, ThemeOverrides};
use crate::text::{concat, str_equal};

verus! {

/// Which of the two bundled themes a setting selects.
pub open spec fn selects_dark(active: Seq<char>, system_theme: Seq<char>) -> bool {
    if active == "auto"@ {
        system_theme == "dark"@
    } else {
        active == "dark"@
    }
}

/// The theme for the `active` setting: `auto` follows the system's
/// preference (`system_theme`, `dark` or `light`); `dark` selects the dark
/// theme, and any other name the light one.
pub fn resolve_theme(active: &str, system_theme: &str, light: ThemeData, dark: ThemeData) -> (r: ThemeData)
    ensures
        r == (if selects_dark(active@, system_theme@) {
            dark
        } else {
            light
        }),
{
    proof {
        reveal_strlit("auto");
    }
    let key = if str_equal(active, "auto") {
        system_theme
    } else {
        active
    };
    if str_equal(key, "dark") {
        dark
    } else {
        light
    }
}

/// The CSS custom property that a typography key sets.
pub open spec fn typography_prop(key: Seq<char>) -> Seq<char> {
    if key == "body-font"@ {
        "--font-body"@
    } else if key == "body-size"@ {
        "--font-size"@
    } else if key == "mono-font"@ {
        "--font-mono"@
    } else if key == "line-height"@ {
        "--line-height"@
    } else {
        "--"@ + key
    }
}

/// The CSS custom property that a typography key sets: the four named keys
/// have their own properties, any other key `k` sets `--k`.
pub fn typography_css_prop(key: &str) -> (r: String)
    ensures
        r@ == typography_prop(key@),
{
    if str_equal(key, "body-font") {
        String::from_str("--font-body")
    } else if str_equal(key, "body-size") {
        String::from_str("--font-size")
    } else if str_equal(key, "mono-font") {
        String::from_str("--font-mono")
    } else if str_equal(key, "line-height") {
        String::from_str("--line-height")
    } else {
        concat("--", key)
    }
}

/// The declarations made from settings: each key `k` as `--k`, or through
/// the typography mapping when `typography` holds.
pub open spec fn declared(s: Seq<(String, String)>, typography: bool) -> Seq<(Seq<char>, Seq<char>)> {
    s.map_values(
        |p: (String, String)|
            (
                if typography {
                    typography_prop(p.0@)
                } else {
                    "--"@ + p.0@
                },
                p.1@,
            ),
    )
}

/// The declarations of a theme: its colors, typography and spacing.
pub open spec fn theme_declared(colors: Seq<(String, String)>, typography: Seq<(String, String)>, spacing: Seq<(String, String)>) -> Seq<(Seq<char>, Seq<char>)> {
    declared(colors, false) + declared(typography, true) + declared(spacing, false)
}

/// The pairs of a list of declarations, as texts.
pub open spec fn pairs_view(v: Seq<(String, String)>) -> Seq<(Seq<char>, Seq<char>)> {
    v.map_values(|p: (String, String)| (p.0@, p.1@))
}

/// Appends the declarations made from `s`.
fn declare(out: &mut Vec<(String, String)>, s: &Settings, typography: bool)
    ensures
        pairs_view(final(out)@) == pairs_view(old(out)@) + declared(s@, typography),
{
    let ghost base = pairs_view(old(out)@);
    let mut i: usize = 0;
    while i < s.len()
        invariant
            i <= s@.len(),
            base == pairs_view(old(out)@),
            pairs_view(out@) == base + declared(s@, typography).take(i as int),
        decreases s.len() - i,
    {
        let prop = if typography {
            typography_css_prop(s[i].0.as_str())
        } else {
            concat("--", s[i].0.as_str())
        };
        let ghost before = pairs_view(out@);
        out.push((prop, s[i].1.clone()));
        proof {
            let d = declared(s@, typography);
            assert(d.take(i + 1) =~= d.take(i as int).push(d[i as int]));
            assert(pairs_view(out@) =~= before.push(d[i as int]));
        }
        i += 1;
    }
    proof {
        let d = declared(s@, typography);
        assert(d.take(s@.len() as int) =~= d);
    }
}

/// The CSS custom properties a theme sets, in order: the theme's colors,
/// typography and spacing, then those of the overrides, so that an override
/// comes after, and wins over, the theme's value.
pub fn theme_declarations(theme: &ThemeData, overrides: Option<&ThemeOverrides>) -> (r: Vec<(String, String)>)
    ensures
        pairs_view(r@) == theme_declared(theme.colors@, theme.typography@, theme.spacing@) + match overrides {
            Some(o) => theme_declared(o.colors@, o.typography@, o.spacing@),
            None => Seq::empty(),
        },
{
    let mut out: Vec<(String, String)> = Vec::new();
    declare(&mut out, &theme.colors, false);
    declare(&mut out, &theme.typography, true);
    declare(&mut out, &theme.spacing, false);
    let ghost base = pairs_view(out@);
    proof {
        assert(base =~= theme_declared(theme.colors@, theme.typography@, theme.spacing@));
    }
    match overrides {
        Some(o) => {
            declare(&mut out, &o.colors, false);
            declare(&mut out, &o.typography, true);
            declare(&mut out, &o.spacing, false);
            proof {
                assert(pairs_view(out@) =~= base + theme_declared(o.colors@, o.typography@, o.spacing@));
            }
        },
        None => {
            proof {
                assert(pairs_view(out@) =~= base + Seq::<(Seq<char>, Seq<char>)>::empty());
            }
        },
    }
    out
}

/// The value of the first setting with key `key`.
pub open spec fn setting_value(s: Seq<(String, String)>, key: Seq<char>) -> Option<Seq<char>>
    decreases s.len(),
{
    if s.len() == 0 {
        None
    } else if s[0].0@ == key {
        Some(s[0].1@)
    } else {
        setting_value(s.drop_first(), key)
    }
}

/// The value of the first setting with key `key`.
pub fn lookup_setting(s: &Settings, key: &str) -> (r: Option<String>)
    ensures
        match setting_value(s@, key@) {
            None => r is None,
            Some(v) => r matches Some(t) && t@ == v,
        },
{
    let mut i: usize = 0;
    proof {
        assert(s@.skip(0) =~= s@);
    }
    while i < s.len()
        invariant
            i <= s@.len(),
            setting_value(s@, key@) == setting_value(s@.skip(i as int), key@),
        decreases s.len() - i,
    {
        proof {
            let rest = s@.skip(i as int);
            assert(rest[0] == s@[i as int]);
            assert(rest.drop_first() =~= s@.skip(i + 1));
        }
        if str_equal(s[i].0.as_str(), key) {
            return Some(s[i].1.clone());
        }
        i += 1;
    }
    None
}

/// The color of the window's title area: the overrides' `bg-secondary`, or
/// else the theme's.
pub fn theme_color(theme: &ThemeData, overrides: Option<&ThemeOverrides>) -> (r: Option<String>)
    ensures
        ({
            let from_overrides = match overrides {
                Some(o) => setting_value(o.colors@, "bg-secondary"@),
                None => None,
            };
            let chosen = match from_overrides {
                Some(v) => Some(v),
                None => setting_value(theme.colors@, "bg-secondary"@),
            };
            match chosen {
                None => r is None,
                Some(v) => r matches Some(t) && t@ == v,
            }
        }),
{
    if let Some(o) = overrides {
        if let Some(v) = lookup_setting(&o.colors, "bg-secondary") {
            return Some(v);
        }
    }
    lookup_setting(&theme.colors, "bg-secondary")
}

/// No key occurs twice among the settings, as in a map.
pub open spec fn distinct_setting_keys(s: Seq<(String, String)>) -> bool {
    forall|i: int, j: int| 0 <= i < j < s.len() ==> s[i].0@ != s[j].0@
}

/// Sets `key` to `value` in the settings: the value of the first pair with
/// that key is replaced, or the pair is added at the end. Settings without a
/// repeated key keep none.
pub fn set_setting(s: &mut Settings, key: String, value: String)
    ensures
        setting_value(final(s)@, key@) == Some(value@),
        forall|k: Seq<char>| k != key@ ==> setting_value(final(s)@, k) == setting_value(old(s)@, k),
        distinct_setting_keys(old(s)@) ==> distinct_setting_keys(final(s)@),
{
    let ghost orig = s@;
    let mut i: usize = 0;
    proof {
        assert(s@.skip(0) =~= s@);
    }
    while i < s.len()
        invariant
            i <= s@.len(),
            s@ == orig,
            orig == old(s)@,
            forall|j: int| 0 <= j < i ==> s@[j].0@ != key@,
        decreases s.len() - i,
    {
        if str_equal(s[i].0.as_str(), key.as_str()) {
            let ghost pair = (key, value);
            s.set(i, (key, value));
            proof {
                lemma_setting_update(orig, i as int, pair);
                assert(s@ == orig.update(i as int, pair));
                assert forall|k: Seq<char>| k != pair.0@ implies #[trigger] setting_value(s@, k)
                    == setting_value(orig, k) by {
                    assert(setting_value(orig.update(i as int, pair), k) == setting_value(orig, k));
                }
                assert forall|a: int| 0 <= a < s@.len() implies #[trigger] s@[a].0@ == orig[a].0@ by {}
            }
            return;
        }
        i += 1;
    }
    s.push((key, value));
    proof {
        lemma_setting_push(orig, (key, value));
        assert forall|a: int| 0 <= a < orig.len() implies #[trigger] s@[a] == orig[a] by {}
    }
}

proof fn lemma_setting_update(s: Seq<(String, String)>, i: int, p: (String, String))
    requires
        0 <= i < s.len(),
        s[i].0@ == p.0@,
        forall|j: int| 0 <= j < i ==> s[j].0@ != p.0@,
    ensures
        setting_value(s.update(i, p), p.0@) == Some(p.1@),
        forall|k: Seq<char>| k != p.0@ ==> setting_value(s.update(i, p), k) == setting_value(s, k),
    decreases i,
{
    let u = s.update(i, p);
    if i == 0 {
        assert(u[0] == p);
        assert(u.drop_first() =~= s.drop_first());
        assert forall|k: Seq<char>| k != p.0@ implies setting_value(u, k) == setting_value(s, k) by {
            assert(setting_value(u, k) == setting_value(u.drop_first(), k));
            assert(setting_value(s, k) == setting_value(s.drop_first(), k));
        }
    } else {
        assert(s[0].0@ != p.0@);
        lemma_setting_update(s.drop_first(), i - 1, p);
        assert(u.drop_first() =~= s.drop_first().update(i - 1, p));
        assert(u[0] == s[0]);
        assert forall|k: Seq<char>| k != p.0@ implies setting_value(u, k) == setting_value(s, k) by {
            if s[0].0@ != k {
                assert(setting_value(u, k) == setting_value(u.drop_first(), k));
                assert(setting_value(s, k) == setting_value(s.drop_first(), k));
            }
        }
        assert(setting_value(u, p.0@) == setting_value(u.drop_first(), p.0@));
    }
}

proof fn lemma_setting_push(s: Seq<(String, String)>, p: (String, String))
    requires
        forall|j: int| 0 <= j < s.len() ==> s[j].0@ != p.0@,
    ensures
        setting_value(s.push(p), p.0@) == Some(p.1@),
        forall|k: Seq<char>| k != p.0@ ==> setting_value(s.push(p), k) == setting_value(s, k),
    decreases s.len(),
{
    let u = s.push(p);
    if s.len() == 0 {
        assert(u[0] == p);
        assert(u.drop_first().len() == 0);
        assert forall|k: Seq<char>| k != p.0@ implies setting_value(u, k) == setting_value(s, k) by {
            assert(setting_value(u, k) == setting_value(u.drop_first(), k));
            assert(setting_value(u.drop_first(), k) == None::<Seq<char>>);
        }
    } else {
        assert(s[0].0@ != p.0@);
        lemma_setting_push(s.drop_first(), p);
        assert(u.drop_first() =~= s.drop_first().push(p));
        assert(u[0] == s[0]);
        assert forall|k: Seq<char>| k != p.0@ implies setting_value(u, k) == setting_value(s, k) by {
            if s[0].0@ != k {
                assert(setting_value(u, k) == setting_value(u.drop_first(), k));
                assert(setting_value(s, k) == setting_value(s.drop_first(), k));
            }
        }
        assert(setting_value(u, p.0@) == setting_value(u.drop_first(), p.0@));
    }
}

} // verus!
