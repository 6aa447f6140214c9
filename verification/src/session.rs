//! The editing session of a window: the open document and its save state,
//! and the rules for saving, switching files and keyboard shortcuts. The
//! interface performs the dialogs, reads and writes these rules ask for.
use vstd::prelude::*;
use crate::common::{editor_mode_named, nav_mode_named, EditorMode, FileNode, NavMode, SaveMode};
use crate::paths::{filename_from_path, last_segment};
use crate::markdown::{parsed_html, previewed_html, render_markdown, MarkdownParser};
use crate::text::{concat, str_equal};

verus! {

/// Where the saving of the open document stands.
#[derive(Debug, Clone, PartialEq)]
pub enum SaveStatus {
    Idle,
    Saving,
    Saved,
    Error(String),
}

/// The state of a window's editing session.
#[derive(Debug)]
pub struct AppState {
    pub current_folder: Option<String>,
    pub file_tree: Vec<FileNode>,
    pub active_file_path: Option<String>,
    pub active_file_content: String,
    pub editor_mode: EditorMode,
    pub is_dirty: bool,
    pub rendered_html: String,
    pub save_mode: Option<SaveMode>,
    pub nav_mode: NavMode,
    pub search_query: String,
    pub show_search: bool,
    pub save_status: SaveStatus,
    /// When the session last wrote the document, in milliseconds.
    pub last_save_timestamp: Option<u64>,
    pub pending_file_switch: Option<String>,
    /// Whether edits are not counted as changes (while a loaded file settles
    /// in the editor).
    pub suppress_dirty: bool,
}

/// What saving needs first: a write of the content to the known path, or a
/// path from the save dialog.
#[derive(Debug, Clone, PartialEq)]
pub enum SaveStart {
    Write { path: String, content: String },
    AskPath { default_name: String },
}

/// What a keyboard shortcut does.
#[derive(Debug, PartialEq, Eq, Structural, Clone, Copy)]
pub enum Shortcut {
    Save,
    NewFile,
    Mode(EditorMode),
    /// Show or hide the file search.
    ToggleSearch,
}

/// What switching to another file does first.
#[derive(Debug, PartialEq, Eq, Structural, Clone, Copy)]
pub enum SwitchAction {
    /// Load the file at once: there is nothing unsaved.
    LoadNow,
    /// Save silently, then load.
    SaveThenLoad,
    /// Ask the user whether to save first.
    Prompt,
}

/// The mark next to the file name in the toolbar.
#[derive(Debug, Clone, PartialEq)]
pub enum SaveIndicator {
    Saving,
    Saved,
    Error(String),
    Unsaved,
    Blank,
}

/// The shortest interval of the auto-save timer, in milliseconds.
pub const MIN_AUTO_SAVE_MS: u64 = 200;

/// The shortcut a key gives with the platform's command modifier held.
pub open spec fn shortcut_for(key: Seq<char>) -> Option<Shortcut> {
    if key == "s"@ {
        Some(Shortcut::Save)
    } else if key == "n"@ {
        Some(Shortcut::NewFile)
    } else if key == "1"@ {
        Some(Shortcut::Mode(EditorMode::Source))
    } else if key == "2"@ {
        Some(Shortcut::Mode(EditorMode::Wysiwyg))
    } else if key == "3"@ {
        Some(Shortcut::Mode(EditorMode::Split))
    } else if key == "4"@ {
        Some(Shortcut::Mode(EditorMode::Preview))
    } else if key == "k"@ {
        Some(Shortcut::ToggleSearch)
    } else {
        None
    }
}

/// The shortcut of a key press: none without the command modifier.
pub fn shortcut(key: &str, modifier: bool) -> (r: Option<Shortcut>)
    ensures
        r == (if modifier {
            shortcut_for(key@)
        } else {
            None
        }),
        !modifier ==> r is None,
        modifier && key@ == "s"@ ==> r == Some(Shortcut::Save),
        modifier && key@ == "n"@ ==> r == Some(Shortcut::NewFile),
        modifier && key@ == "1"@ ==> r == Some(Shortcut::Mode(EditorMode::Source)),
        modifier && key@ == "2"@ ==> r == Some(Shortcut::Mode(EditorMode::Wysiwyg)),
        modifier && key@ == "3"@ ==> r == Some(Shortcut::Mode(EditorMode::Split)),
        modifier && key@ == "4"@ ==> r == Some(Shortcut::Mode(EditorMode::Preview)),
        modifier && key@ == "k"@ ==> r == Some(Shortcut::ToggleSearch),
{
    if !modifier {
        return None;
    }
    proof {
        lemma_shortcut_keys_differ();
    }
    if str_equal(key, "s") {
        Some(Shortcut::Save)
    } else if str_equal(key, "n") {
        Some(Shortcut::NewFile)
    } else if str_equal(key, "1") {
        Some(Shortcut::Mode(EditorMode::Source))
    } else if str_equal(key, "2") {
        Some(Shortcut::Mode(EditorMode::Wysiwyg))
    } else if str_equal(key, "3") {
        Some(Shortcut::Mode(EditorMode::Split))
    } else if str_equal(key, "4") {
        Some(Shortcut::Mode(EditorMode::Preview))
    } else if str_equal(key, "k") {
        Some(Shortcut::ToggleSearch)
    } else {
        None
    }
}

/// The interval of the auto-save timer: only when saving after a delay, and
/// never shorter than `MIN_AUTO_SAVE_MS`.
pub fn auto_save_interval(save_mode: Option<SaveMode>, delay_ms: u64) -> (r: Option<u64>)
    ensures
        save_mode == Some(SaveMode::AfterDelay) ==> r == Some(
            if delay_ms >= MIN_AUTO_SAVE_MS {
                delay_ms
            } else {
                MIN_AUTO_SAVE_MS
            },
        ),
        save_mode != Some(SaveMode::AfterDelay) ==> r is None,
{
    match save_mode {
        Some(SaveMode::AfterDelay) => {
            if delay_ms >= MIN_AUTO_SAVE_MS {
                Some(delay_ms)
            } else {
                Some(MIN_AUTO_SAVE_MS)
            }
        },
        _ => None,
    }
}

/// Whether the window going out of view saves: only in the save-on-focus-
/// loss mode, with unsaved changes, when the page is really hidden.
pub fn saves_on_focus_loss(save_mode: Option<SaveMode>, dirty: bool, hidden: bool) -> (r: bool)
    ensures
        r == (save_mode == Some(SaveMode::OnFocusLoss) && dirty && hidden),
{
    match save_mode {
        Some(SaveMode::OnFocusLoss) => dirty && hidden,
        _ => false,
    }
}

/// The indicator for a save status: a plain idle state shows the unsaved
/// mark when there are changes.
pub open spec fn indicator_for(status: SaveStatus, dirty: bool) -> SaveIndicator {
    match status {
        SaveStatus::Saving => SaveIndicator::Saving,
        SaveStatus::Saved => SaveIndicator::Saved,
        SaveStatus::Error(m) => SaveIndicator::Error(m),
        SaveStatus::Idle => if dirty {
            SaveIndicator::Unsaved
        } else {
            SaveIndicator::Blank
        },
    }
}

/// The name the toolbar shows for the open document: the file name of its
/// path, or `Untitled` for a new document.
pub open spec fn shown_name(path: Option<String>) -> Seq<char> {
    match path {
        Some(p) => last_segment(p@),
        None => "Untitled"@,
    }
}

impl AppState {
    /// A fresh session: no folder, no file, the WYSIWYG editor, the sidebar,
    /// nothing unsaved.
    pub fn new() -> (r: Self)
        ensures
            r.current_folder is None,
            r.file_tree@.len() == 0,
            r.active_file_path is None,
            r.active_file_content@ == Seq::<char>::empty(),
            r.editor_mode == EditorMode::Wysiwyg,
            !r.is_dirty,
            r.rendered_html@ == Seq::<char>::empty(),
            r.save_mode is None,
            r.nav_mode == NavMode::Sidebar,
            r.search_query@ == Seq::<char>::empty(),
            !r.show_search,
            r.save_status == SaveStatus::Idle,
            r.last_save_timestamp is None,
            r.pending_file_switch is None,
            !r.suppress_dirty,
    {
        AppState {
            current_folder: None,
            file_tree: Vec::new(),
            active_file_path: None,
            active_file_content: String::new(),
            editor_mode: EditorMode::Wysiwyg,
            is_dirty: false,
            rendered_html: String::new(),
            save_mode: None,
            nav_mode: NavMode::Sidebar,
            search_query: String::new(),
            show_search: false,
            save_status: SaveStatus::Idle,
            last_save_timestamp: None,
            pending_file_switch: None,
            suppress_dirty: false,
        }
    }

    /// What saving needs first: the write when the document has a path, else
    /// the save dialog with `Untitled.md` proposed.
    pub fn save_start(&self) -> (r: SaveStart)
        ensures
            match self.active_file_path {
                Some(p) => r matches SaveStart::Write { path, content } && path == p && content
                    == self.active_file_content,
                None => r matches SaveStart::AskPath { default_name } && default_name@ == "Untitled.md"@,
            },
    {
        match &self.active_file_path {
            Some(p) => SaveStart::Write { path: p.clone(), content: self.active_file_content.clone() },
            None => SaveStart::AskPath { default_name: String::from_str("Untitled.md") },
        }
    }

    /// The save dialog answered: a chosen path becomes the document's path
    /// and is returned for the write; a cancel stops the save; a failure is
    /// shown as the save's error.
    pub fn save_path_chosen(&mut self, answer: Result<Option<String>, String>) -> (r: Option<String>)
        ensures
            match answer {
                Ok(Some(p)) => {
                    &&& r == Some(p)
                    &&& final(self).active_file_path == Some(p)
                    &&& final(self).save_status == old(self).save_status
                },
                Ok(None) => {
                    &&& r is None
                    &&& final(self).active_file_path == old(self).active_file_path
                    &&& final(self).save_status == old(self).save_status
                },
                Err(e) => {
                    &&& r is None
                    &&& final(self).active_file_path == old(self).active_file_path
                    &&& final(self).save_status == SaveStatus::Error(e)
                },
            },
            final(self).is_dirty == old(self).is_dirty,
            final(self).active_file_content == old(self).active_file_content,
            *final(self) == (AppState { active_file_path: final(self).active_file_path, save_status: final(self).save_status, ..*old(self) }),
    {
        match answer {
            Ok(Some(p)) => {
                self.active_file_path = Some(p.clone());
                Some(p)
            },
            Ok(None) => None,
            Err(e) => {
                self.save_status = SaveStatus::Error(e);
                None
            },
        }
    }

    /// The write begins at time `now_ms`: the status is `Saving`, and the
    /// time is kept so that the watcher can tell the session's own write.
    pub fn begin_write(&mut self, now_ms: u64)
        ensures
            final(self).save_status == SaveStatus::Saving,
            final(self).last_save_timestamp == Some(now_ms),
            final(self).is_dirty == old(self).is_dirty,
            final(self).active_file_path == old(self).active_file_path,
            final(self).active_file_content == old(self).active_file_content,
            *final(self) == (AppState { save_status: final(self).save_status, last_save_timestamp: final(self).last_save_timestamp, ..*old(self) }),
    {
        self.save_status = SaveStatus::Saving;
        self.last_save_timestamp = Some(now_ms);
    }

    /// The write ended: success clears the unsaved mark and shows `Saved`;
    /// a failure is shown as the save's error.
    pub fn finish_write(&mut self, result: Result<(), String>)
        ensures
            match result {
                Ok(()) => !final(self).is_dirty && final(self).save_status == SaveStatus::Saved,
                Err(e) => final(self).is_dirty == old(self).is_dirty && final(self).save_status
                    == SaveStatus::Error(e),
            },
            final(self).active_file_path == old(self).active_file_path,
            final(self).active_file_content == old(self).active_file_content,
            *final(self) == (AppState { is_dirty: final(self).is_dirty, save_status: final(self).save_status, ..*old(self) }),
    {
        match result {
            Ok(()) => {
                self.is_dirty = false;
                self.save_status = SaveStatus::Saved;
            },
            Err(e) => {
                self.save_status = SaveStatus::Error(e);
            },
        }
    }

    /// A shown `Saved` goes back to idle after a moment; any other status
    /// stays.
    pub fn settle_saved(&mut self)
        ensures
            old(self).save_status == SaveStatus::Saved ==> final(self).save_status == SaveStatus::Idle,
            old(self).save_status != SaveStatus::Saved ==> final(self).save_status == old(self).save_status,
            *final(self) == (AppState { save_status: final(self).save_status, ..*old(self) }),
    {
        if let SaveStatus::Saved = self.save_status {
            self.save_status = SaveStatus::Idle;
        }
    }

    /// A new, empty, untitled document.
    pub fn new_file(&mut self)
        ensures
            final(self).active_file_path is None,
            final(self).active_file_content@ == Seq::<char>::empty(),
            !final(self).is_dirty,
            final(self).save_status == SaveStatus::Idle,
            final(self).rendered_html@ == Seq::<char>::empty(),
            final(self).editor_mode == old(self).editor_mode,
            final(self).show_search == old(self).show_search,
            *final(self) == (AppState { active_file_path: final(self).active_file_path, active_file_content: final(self).active_file_content, is_dirty: final(self).is_dirty, save_status: final(self).save_status, rendered_html: final(self).rendered_html, ..*old(self) }),
    {
        self.active_file_path = None;
        self.active_file_content = String::new();
        self.is_dirty = false;
        self.save_status = SaveStatus::Idle;
        self.rendered_html = String::new();
    }

    /// Carries out a shortcut's change of state; saving is left to the
    /// caller, which performs the save the answer asks for.
    pub fn apply_shortcut(&mut self, s: Shortcut) -> (save: bool)
        ensures
            save == (s == Shortcut::Save),
            s == Shortcut::Save ==> *final(self) == *old(self),
            s == Shortcut::NewFile ==> final(self).active_file_path is None && !final(self).is_dirty
                && final(self).save_status == SaveStatus::Idle
                && final(self).active_file_content@ == Seq::<char>::empty()
                && final(self).rendered_html@ == Seq::<char>::empty(),
            s matches Shortcut::Mode(m) ==> final(self).editor_mode == m && final(self).active_file_content == old(self).active_file_content && final(self).active_file_path
                == old(self).active_file_path,
            s == Shortcut::ToggleSearch ==> final(self).show_search == !old(self).show_search
                && final(self).editor_mode == old(self).editor_mode
                && final(self).active_file_content == old(self).active_file_content
                && final(self).active_file_path == old(self).active_file_path
                && final(self).is_dirty == old(self).is_dirty,
            s != Shortcut::ToggleSearch ==> final(self).show_search == old(self).show_search,
            s == Shortcut::NewFile ==> *final(self) == (AppState { active_file_path: final(self).active_file_path, active_file_content: final(self).active_file_content, is_dirty: final(self).is_dirty, save_status: final(self).save_status, rendered_html: final(self).rendered_html, ..*old(self) }),
            s is Mode ==> *final(self) == (AppState { editor_mode: final(self).editor_mode, ..*old(self) }),
            s == Shortcut::ToggleSearch ==> *final(self) == (AppState { show_search: final(self).show_search, ..*old(self) }),
    {
        match s {
            Shortcut::Save => true,
            Shortcut::NewFile => {
                self.new_file();
                false
            },
            Shortcut::Mode(m) => {
                self.editor_mode = m;
                false
            },
            Shortcut::ToggleSearch => {
                self.show_search = !self.show_search;
                false
            },
        }
    }

    /// Whether an auto-save tick saves: only with unsaved changes.
    pub fn auto_save_due(&self) -> (r: bool)
        ensures
            r == self.is_dirty,
    {
        self.is_dirty
    }

    /// The user asked to open `path` while a document is open. Nothing
    /// unsaved: load at once. In an auto-save mode: save, then load. In the
    /// manual mode (also when no mode is known): remember the file and ask.
    pub fn guard_file_switch(&mut self, path: String) -> (r: SwitchAction)
        ensures
            !old(self).is_dirty ==> r == SwitchAction::LoadNow && final(self).pending_file_switch
                == old(self).pending_file_switch,
            old(self).is_dirty && (old(self).save_mode == Some(SaveMode::AfterDelay) || old(self).save_mode == Some(SaveMode::OnFocusLoss)) ==> r == SwitchAction::SaveThenLoad
                && final(self).pending_file_switch == old(self).pending_file_switch,
            old(self).is_dirty && !(old(self).save_mode == Some(SaveMode::AfterDelay) || old(self).save_mode == Some(SaveMode::OnFocusLoss)) ==> r == SwitchAction::Prompt && final(self).pending_file_switch == Some(path),
            final(self).active_file_path == old(self).active_file_path,
            final(self).is_dirty == old(self).is_dirty,
            final(self).active_file_content == old(self).active_file_content,
            *final(self) == (AppState { pending_file_switch: final(self).pending_file_switch, ..*old(self) }),
    {
        if !self.is_dirty {
            return SwitchAction::LoadNow;
        }
        match self.save_mode {
            Some(SaveMode::AfterDelay) | Some(SaveMode::OnFocusLoss) => SwitchAction::SaveThenLoad,
            _ => {
                self.pending_file_switch = Some(path);
                SwitchAction::Prompt
            },
        }
    }

    /// Loading `path` begins: it becomes the open path, and edits stop
    /// counting as changes until the loaded text settles.
    pub fn begin_load(&mut self, path: String)
        ensures
            final(self).active_file_path == Some(path),
            final(self).suppress_dirty,
            final(self).is_dirty == old(self).is_dirty,
            final(self).active_file_content == old(self).active_file_content,
            *final(self) == (AppState { active_file_path: final(self).active_file_path, suppress_dirty: final(self).suppress_dirty, ..*old(self) }),
    {
        self.active_file_path = Some(path);
        self.suppress_dirty = true;
    }

    /// The read of the file ended: its text becomes the document, with
    /// nothing unsaved; a failed read leaves the document as it was.
    pub fn finish_load(&mut self, result: Result<String, String>)
        ensures
            match result {
                Ok(c) => final(self).active_file_content == c && !final(self).is_dirty
                    && final(self).save_status == SaveStatus::Idle,
                Err(_) => *final(self) == *old(self),
            },
            final(self).active_file_path == old(self).active_file_path,
            final(self).suppress_dirty == old(self).suppress_dirty,
            *final(self) == (AppState { active_file_content: final(self).active_file_content, is_dirty: final(self).is_dirty, save_status: final(self).save_status, ..*old(self) }),
    {
        if let Ok(c) = result {
            self.active_file_content = c;
            self.is_dirty = false;
            self.save_status = SaveStatus::Idle;
        }
    }

    /// The loaded text has settled: edits count as changes again.
    pub fn end_suppression(&mut self)
        ensures
            !final(self).suppress_dirty,
            final(self).is_dirty == old(self).is_dirty,
            final(self).active_file_content == old(self).active_file_content,
            *final(self) == (AppState { suppress_dirty: final(self).suppress_dirty, ..*old(self) }),
    {
        self.suppress_dirty = false;
    }

    /// The editor reports new text: it becomes the document, and it counts
    /// as an unsaved change unless changes are suppressed.
    pub fn edit(&mut self, content: String)
        ensures
            final(self).active_file_content == content,
            final(self).is_dirty == (old(self).is_dirty || !old(self).suppress_dirty),
            final(self).active_file_path == old(self).active_file_path,
            *final(self) == (AppState { active_file_content: final(self).active_file_content, is_dirty: final(self).is_dirty, ..*old(self) }),
    {
        self.active_file_content = content;
        if !self.suppress_dirty {
            self.is_dirty = true;
        }
    }

    /// The source editor reports text. The same text as the document's is
    /// an echo of the editor's own update and changes nothing; new text
    /// becomes the document, counts as a change unless changes are
    /// suppressed, and is rendered for the preview. Returns whether anything
    /// changed.
    pub fn source_edit(&mut self, content: String) -> (changed: bool)
        ensures
            changed == (content@ != old(self).active_file_content@),
            !changed ==> *final(self) == *old(self),
            changed ==> {
                &&& final(self).active_file_content == content
                &&& final(self).is_dirty == (old(self).is_dirty || !old(self).suppress_dirty)
                &&& final(self).rendered_html@ == previewed_html(content@)
                &&& final(self).active_file_path == old(self).active_file_path
            },
            *final(self) == (AppState { active_file_content: final(self).active_file_content, is_dirty: final(self).is_dirty, rendered_html: final(self).rendered_html, ..*old(self) }),
    {
        if str_equal(content.as_str(), self.active_file_content.as_str()) {
            return false;
        }
        let html = render_markdown(content.as_str());
        self.edit(content);
        self.rendered_html = html;
        true
    }

    /// The mark next to the file name.
    pub fn indicator(&self) -> (r: SaveIndicator)
        ensures
            r == indicator_for(self.save_status, self.is_dirty),
    {
        match &self.save_status {
            SaveStatus::Saving => SaveIndicator::Saving,
            SaveStatus::Saved => SaveIndicator::Saved,
            SaveStatus::Error(m) => SaveIndicator::Error(m.clone()),
            SaveStatus::Idle => if self.is_dirty {
                SaveIndicator::Unsaved
            } else {
                SaveIndicator::Blank
            },
        }
    }

    /// The name shown for the open document.
    pub fn display_name(&self) -> (r: String)
        ensures
            r@ == shown_name(self.active_file_path),
    {
        match &self.active_file_path {
            Some(p) => filename_from_path(p.as_str()),
            None => String::from_str("Untitled"),
        }
    }

    /// Takes over the editor and navigation modes named in the
    /// configuration; a name that stands for no mode leaves the mode as it is.
    pub fn sync_modes_from_config(&mut self, editor_mode: &str, nav_mode: &str)
        ensures
            final(self).editor_mode == match editor_mode_named(editor_mode@) {
                Some(m) => m,
                None => old(self).editor_mode,
            },
            final(self).nav_mode == match nav_mode_named(nav_mode@) {
                Some(m) => m,
                None => old(self).nav_mode,
            },
            final(self).active_file_path == old(self).active_file_path,
            final(self).active_file_content == old(self).active_file_content,
            final(self).is_dirty == old(self).is_dirty,
            *final(self) == (AppState { editor_mode: final(self).editor_mode, nav_mode: final(self).nav_mode, ..*old(self) }),
    {
        if let Some(m) = EditorMode::from_name(editor_mode) {
            self.editor_mode = m;
        }
        if let Some(m) = NavMode::from_name(nav_mode) {
            self.nav_mode = m;
        }
    }

    /// The user answered the unsaved-changes prompt. Save: the remembered
    /// file is to be loaded after a save. Discard: the changes are dropped and
    /// the file is to be loaded. Cancel: nothing happens. The prompt closes in
    /// each case. Returns the file to load and whether to save first.
    pub fn resolve_switch_prompt(&mut self, choice: PromptChoice) -> (r: Option<(String, bool)>)
        ensures
            final(self).pending_file_switch is None,
            final(self).active_file_path == old(self).active_file_path,
            final(self).active_file_content == old(self).active_file_content,
            match choice {
                PromptChoice::Save => {
                    &&& final(self).is_dirty == old(self).is_dirty
                    &&& final(self).save_status == old(self).save_status
                    &&& match old(self).pending_file_switch {
                        Some(p) => r == Some((p, true)),
                        None => r is None,
                    }
                },
                PromptChoice::Discard => {
                    &&& !final(self).is_dirty
                    &&& final(self).save_status == SaveStatus::Idle
                    &&& match old(self).pending_file_switch {
                        Some(p) => r == Some((p, false)),
                        None => r is None,
                    }
                },
                PromptChoice::Cancel => {
                    &&& r is None
                    &&& final(self).is_dirty == old(self).is_dirty
                    &&& final(self).save_status == old(self).save_status
                },
            },
            *final(self) == (AppState { pending_file_switch: final(self).pending_file_switch, is_dirty: final(self).is_dirty, save_status: final(self).save_status, ..*old(self) }),
    {
        let pending = self.pending_file_switch.take();
        match choice {
            PromptChoice::Save => match pending {
                Some(p) => Some((p, true)),
                None => None,
            },
            PromptChoice::Discard => {
                self.is_dirty = false;
                self.save_status = SaveStatus::Idle;
                match pending {
                    Some(p) => Some((p, false)),
                    None => None,
                }
            },
            PromptChoice::Cancel => None,
        }
    }
}

/// The user's answer to the unsaved-changes prompt.
#[derive(Debug, PartialEq, Eq, Structural, Clone, Copy)]
pub enum PromptChoice {
    Save,
    Discard,
    Cancel,
}

/// The folder opened at start: the most recent one, if any.
pub fn startup_folder(recent_folders: &Vec<String>) -> (r: Option<String>)
    ensures
        recent_folders@.len() == 0 ==> r is None,
        recent_folders@.len() > 0 ==> r == Some(recent_folders@[0]),
{
    if recent_folders.len() > 0 {
        Some(recent_folders[0].clone())
    } else {
        None
    }
}


/// The message after an export: `Saved` and the file name of the written
/// file, or `Could not export`.
pub fn export_status_message(saved_path: Option<&str>) -> (r: String)
    ensures
        r@ == match saved_path {
            Some(p) => "Saved "@ + last_segment(p@),
            None => "Could not export"@,
        },
{
    match saved_path {
        Some(p) => {
            let name = filename_from_path(p);
            concat("Saved ", name.as_str())
        },
        None => String::from_str("Could not export"),
    }
}

/// Whether a key press opens the settings: `,` with the command modifier.
pub fn opens_settings(key: &str, modifier: bool) -> (r: bool)
    ensures
        r == (modifier && key@ == ","@),
{
    modifier && str_equal(key, ",")
}

/// The search shortcut as the toolbar shows it.
pub fn search_shortcut_label(is_mac: bool) -> (r: &'static str)
    ensures
        r@ == (if is_mac {
            "\u{2318}K"@
        } else {
            "Ctrl+K"@
        }),
{
    if is_mac {
        "\u{2318}K"
    } else {
        "Ctrl+K"
    }
}


/// The preview of a document: nothing for an empty document, else its HTML.
pub fn preview_html(content: &str) -> (r: String)
    ensures
        content@.len() == 0 ==> r@.len() == 0,
        content@.len() > 0 ==> r@ == parsed_html(content@),
{
    if content.unicode_len() == 0 {
        String::new()
    } else {
        MarkdownParser::parse(content)
    }
}

/// With the command modifier held, `s` saves, `n` starts a new file, `k`
/// shows or hides the search, and the digits `1` to `4` select the editor
/// modes in order: source, WYSIWYG, split, preview. Each mode has its own
/// digit, and no key acts without the modifier.
pub proof fn law_shortcut_keys(key: Seq<char>)
    ensures
        key == "s"@ ==> shortcut_for(key) == Some(Shortcut::Save),
        key == "n"@ ==> shortcut_for(key) == Some(Shortcut::NewFile),
        key == "k"@ ==> shortcut_for(key) == Some(Shortcut::ToggleSearch),
        key == "1"@ ==> shortcut_for(key) == Some(Shortcut::Mode(EditorMode::Source)),
        key == "2"@ ==> shortcut_for(key) == Some(Shortcut::Mode(EditorMode::Wysiwyg)),
        key == "3"@ ==> shortcut_for(key) == Some(Shortcut::Mode(EditorMode::Split)),
        key == "4"@ ==> shortcut_for(key) == Some(Shortcut::Mode(EditorMode::Preview)),
        forall|m: EditorMode| shortcut_for(key) == Some(Shortcut::Mode(m)) ==> (key == "1"@ <==> m
            == EditorMode::Source) && (key == "2"@ <==> m == EditorMode::Wysiwyg) && (key == "3"@
            <==> m == EditorMode::Split) && (key == "4"@ <==> m == EditorMode::Preview),
{
    lemma_shortcut_keys_differ();
}

/// The shortcut keys are one character each, all different.
proof fn lemma_shortcut_keys_differ()
    ensures
        "s"@.len() == 1 && "s"@[0] == 's',
        "n"@.len() == 1 && "n"@[0] == 'n',
        "k"@.len() == 1 && "k"@[0] == 'k',
        "1"@.len() == 1 && "1"@[0] == '1',
        "2"@.len() == 1 && "2"@[0] == '2',
        "3"@.len() == 1 && "3"@[0] == '3',
        "4"@.len() == 1 && "4"@[0] == '4',
{
    reveal_strlit("s");
    reveal_strlit("n");
    reveal_strlit("k");
    reveal_strlit("1");
    reveal_strlit("2");
    reveal_strlit("3");
    reveal_strlit("4");
    assert("s"@ =~= seq!['s']);
    assert("n"@ =~= seq!['n']);
    assert("k"@ =~= seq!['k']);
    assert("1"@ =~= seq!['1']);
    assert("2"@ =~= seq!['2']);
    assert("3"@ =~= seq!['3']);
    assert("4"@ =~= seq!['4']);
}

} // verus!
