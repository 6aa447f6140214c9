//! First-run onboarding: whether the welcome was dismissed, which feature
//! tips were dismissed, and what the welcome screen shows.
use vstd::prelude::*;
use crate::paths::{file_name_and_parent, filename_from_path, last_segment, before_last_slash};
use crate::recent::texts;
use crate::text::{concat, str_equal};

verus! {

/// Where the onboarding state is stored in the browser's local storage.
pub open spec fn onboarding_storage_key() -> Seq<char> {
    "rustynotes:onboarding"@
}

/// The key under which the onboarding state is stored.
pub fn storage_key() -> (r: &'static str)
    ensures
        r@ == onboarding_storage_key(),
{
    "rustynotes:onboarding"
}

/// What onboarding remembers: whether the welcome was dismissed, and the ids
/// of the dismissed tips, each once.
#[derive(Debug)]
pub struct OnboardingState {
    pub welcomed: bool,
    pub tips_seen: Vec<String>,
}

/// No id occurs twice.
pub open spec fn distinct_ids(s: Seq<Seq<char>>) -> bool {
    forall|i: int, j: int| 0 <= i < j < s.len() ==> s[i] != s[j]
}

impl OnboardingState {
    /// The state of a first run: not welcomed, no tip dismissed.
    pub fn new() -> (r: Self)
        ensures
            !r.welcomed,
            r.tips_seen@.len() == 0,
    {
        OnboardingState { welcomed: false, tips_seen: Vec::new() }
    }

    /// Whether the welcome is still to be shown.
    pub fn is_first_run(&self) -> (r: bool)
        ensures
            r == !self.welcomed,
    {
        !self.welcomed
    }

    /// The welcome screen was dismissed.
    pub fn mark_welcomed(&mut self)
        ensures
            final(self).welcomed,
            final(self).tips_seen == old(self).tips_seen,
    {
        self.welcomed = true;
    }

    /// Whether the tip `tip_id` was dismissed.
    pub fn is_tip_seen(&self, tip_id: &str) -> (r: bool)
        ensures
            r == texts(self.tips_seen@).contains(tip_id@),
    {
        let mut i: usize = 0;
        while i < self.tips_seen.len()
            invariant
                i <= self.tips_seen@.len(),
                forall|j: int| 0 <= j < i ==> self.tips_seen@[j]@ != tip_id@,
            decreases self.tips_seen.len() - i,
        {
            if str_equal(self.tips_seen[i].as_str(), tip_id) {
                proof {
                    assert(texts(self.tips_seen@)[i as int] == tip_id@);
                }
                return true;
            }
            i += 1;
        }
        proof {
            if texts(self.tips_seen@).contains(tip_id@) {
                let j = choose|j: int| 0 <= j < texts(self.tips_seen@).len() && texts(self.tips_seen@)[j] == tip_id@;
                assert(self.tips_seen@[j]@ == tip_id@);
            }
        }
        false
    }

    /// The tip `tip_id` was dismissed: it is added to the dismissed tips
    /// unless it is there already. Returns whether the state changed (and so
    /// must be stored).
    pub fn dismiss_tip(&mut self, tip_id: &str) -> (changed: bool)
        ensures
            changed == !texts(old(self).tips_seen@).contains(tip_id@),
            changed ==> texts(final(self).tips_seen@) == texts(old(self).tips_seen@).push(tip_id@),
            !changed ==> final(self).tips_seen@ == old(self).tips_seen@,
            final(self).welcomed == old(self).welcomed,
    {
        if self.is_tip_seen(tip_id) {
            false
        } else {
            self.tips_seen.push(tip_id.to_string());
            proof {
                assert(texts(self.tips_seen@) =~= texts(old(self).tips_seen@).push(tip_id@));
            }
            true
        }
    }
}

/// The accessible label of a tip's dismiss button.
pub fn dismiss_label(message: &str) -> (r: String)
    ensures
        r@ == "Dismiss tip: "@ + message@,
{
    concat("Dismiss tip: ", message)
}

// ---------------------------------------------------------------------------
// The welcome screen
// ---------------------------------------------------------------------------

/// The most recent folders, and files, that the welcome screen lists.
pub const WELCOME_RECENT_CAP: usize = 5;

/// What the welcome screen shows.
#[derive(Debug)]
pub struct WelcomeView {
    pub title: String,
    /// Each recent folder as its name and its path.
    pub folders: Vec<(String, String)>,
    /// Each recent file as its name and the folder that holds it.
    pub files: Vec<(String, String)>,
    pub show_recent: bool,
    /// The shortcut hints: search, cycle the editor mode, the editor modes,
    /// settings.
    pub shortcuts: Vec<String>,
}

/// The first `WELCOME_RECENT_CAP` entries of a list.
pub open spec fn shown_entries(s: Seq<Seq<char>>) -> Seq<Seq<char>> {
    if s.len() <= WELCOME_RECENT_CAP {
        s
    } else {
        s.take(WELCOME_RECENT_CAP as int)
    }
}

/// The modifier key as the hints write it.
pub open spec fn modifier_label(is_mac: bool) -> Seq<char> {
    if is_mac {
        "\u{2318}"@
    } else {
        "Ctrl+"@
    }
}

/// Whether the welcome view is the one for these settings.
pub open spec fn welcome_view_of(v: WelcomeView, first_run: bool, folders: Seq<Seq<char>>, files: Seq<Seq<char>>, is_mac: bool) -> bool {
    &&& v.title@ == (if first_run {
        "Welcome to RustyNotes"@
    } else {
        "RustyNotes"@
    })
    &&& v.folders@.len() == shown_entries(folders).len()
    &&& forall|i: int|
        0 <= i < v.folders@.len() ==> (#[trigger] v.folders@[i]).0@ == last_segment(shown_entries(folders)[i])
            && v.folders@[i].1@ == shown_entries(folders)[i]
    &&& v.files@.len() == shown_entries(files).len()
    &&& forall|i: int|
        0 <= i < v.files@.len() ==> (#[trigger] v.files@[i]).0@ == last_segment(shown_entries(files)[i])
            && v.files@[i].1@ == before_last_slash(shown_entries(files)[i])
    &&& v.show_recent == (folders.len() > 0 || files.len() > 0)
    &&& texts(v.shortcuts@) == seq![
        modifier_label(is_mac) + "K"@,
        modifier_label(is_mac) + "E"@,
        modifier_label(is_mac) + "1/2/3"@,
        modifier_label(is_mac) + ","@,
    ]
}

/// The welcome screen for the recent lists: its title, the first recent
/// folders and files, and the shortcut hints for the platform.
pub fn welcome_view(first_run: bool, recent_folders: &Vec<String>, recent_files: &Vec<String>, is_mac: bool) -> (r: WelcomeView)
    ensures
        welcome_view_of(r, first_run, texts(recent_folders@), texts(recent_files@), is_mac),
        r.show_recent == (recent_folders@.len() > 0 || recent_files@.len() > 0),
        r.show_recent == (r.folders@.len() > 0 || r.files@.len() > 0),
{
    let title = if first_run {
        String::from_str("Welcome to RustyNotes")
    } else {
        String::from_str("RustyNotes")
    };
    let nf: usize = if recent_folders.len() <= WELCOME_RECENT_CAP { recent_folders.len() } else { WELCOME_RECENT_CAP };
    let mut folders: Vec<(String, String)> = Vec::new();
    let mut i: usize = 0;
    while i < nf
        invariant
            i <= nf,
            nf <= recent_folders@.len(),
            nf == shown_entries(texts(recent_folders@)).len(),
            folders@.len() == i,
            forall|j: int|
                0 <= j < i ==> (#[trigger] folders@[j]).0@ == last_segment(shown_entries(texts(recent_folders@))[j])
                    && folders@[j].1@ == shown_entries(texts(recent_folders@))[j],
        decreases nf - i,
    {
        proof {
            assert(shown_entries(texts(recent_folders@))[i as int] == recent_folders@[i as int]@);
        }
        let name = filename_from_path(recent_folders[i].as_str());
        folders.push((name, recent_folders[i].clone()));
        i += 1;
    }
    let nl: usize = if recent_files.len() <= WELCOME_RECENT_CAP { recent_files.len() } else { WELCOME_RECENT_CAP };
    let mut files: Vec<(String, String)> = Vec::new();
    let mut k: usize = 0;
    while k < nl
        invariant
            k <= nl,
            nl <= recent_files@.len(),
            nl == shown_entries(texts(recent_files@)).len(),
            files@.len() == k,
            forall|j: int|
                0 <= j < k ==> (#[trigger] files@[j]).0@ == last_segment(shown_entries(texts(recent_files@))[j])
                    && files@[j].1@ == before_last_slash(shown_entries(texts(recent_files@))[j]),
        decreases nl - k,
    {
        proof {
            assert(shown_entries(texts(recent_files@))[k as int] == recent_files@[k as int]@);
        }
        let pair = file_name_and_parent(recent_files[k].as_str());
        files.push(pair);
        k += 1;
    }
    let modifier = if is_mac { "\u{2318}" } else { "Ctrl+" };
    let mut shortcuts: Vec<String> = Vec::new();
    shortcuts.push(concat(modifier, "K"));
    shortcuts.push(concat(modifier, "E"));
    shortcuts.push(concat(modifier, "1/2/3"));
    shortcuts.push(concat(modifier, ","));
    proof {
        assert(texts(shortcuts@) =~= seq![
            modifier_label(is_mac) + "K"@,
            modifier_label(is_mac) + "E"@,
            modifier_label(is_mac) + "1/2/3"@,
            modifier_label(is_mac) + ","@,
        ]);
    }
    WelcomeView {
        title,
        folders,
        files,
        show_recent: recent_folders.len() > 0 || recent_files.len() > 0,
        shortcuts,
    }
}

// ---------------------------------------------------------------------------
// Laws
// ---------------------------------------------------------------------------

/// Dismissing a tip twice is the same as dismissing it once, and a
/// dismissed tip is seen.
pub proof fn law_dismiss_tip_idempotent(tips: Seq<Seq<char>>, id: Seq<char>)
    ensures
        ({
            let once = if tips.contains(id) {
                tips
            } else {
                tips.push(id)
            };
            &&& once.contains(id)
            &&& (if once.contains(id) {
                once
            } else {
                once.push(id)
            }) == once
        }),
{
    if !tips.contains(id) {
        assert(tips.push(id)[tips.len() as int] == id);
    }
}

/// Dismissing tips keeps every id at most once.
pub proof fn law_dismiss_tip_keeps_distinct(tips: Seq<Seq<char>>, id: Seq<char>)
    requires
        distinct_ids(tips),
    ensures
        distinct_ids(
            if tips.contains(id) {
                tips
            } else {
                tips.push(id)
            },
        ),
{
    if !tips.contains(id) {
        let t = tips.push(id);
        assert forall|i: int, j: int| 0 <= i < j < t.len() implies t[i] != t[j] by {
            if j == tips.len() {
                assert(t[i] == tips[i]);
            } else {
                assert(t[i] == tips[i] && t[j] == tips[j]);
            }
        }
    }
}

/// The welcome screen shows its recent section exactly when it lists a
/// recent folder or a recent file, and it lists one whenever the recent
/// lists hold one: a recent file alone is enough.
pub proof fn law_recent_section_shown(v: WelcomeView, first_run: bool, folders: Seq<Seq<char>>, files: Seq<Seq<char>>, is_mac: bool)
    requires
        welcome_view_of(v, first_run, folders, files, is_mac),
    ensures
        v.show_recent == (v.folders@.len() > 0 || v.files@.len() > 0),
        v.show_recent == (folders.len() > 0 || files.len() > 0),
        (v.folders@.len() > 0) == (folders.len() > 0),
        (v.files@.len() > 0) == (files.len() > 0),
{
}

} // verus!
