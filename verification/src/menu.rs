//! The application menu as data: the "File" menu with its "Open Recent"
//! submenu, and what choosing an item does.
use vstd::prelude::*;
use crate::paths::{file_name_of, path_file_name};
use crate::recent::texts;
use crate::text::{chars_of, concat, seq_starts_with, str_equal, str_starts_with, string_from_range};

verus! {

/// The most entries of each recent list that the menu shows.
pub const RECENT_MENU_CAP: usize = 10;

// ---------------------------------------------------------------------------
// Numbers in item ids
// ---------------------------------------------------------------------------

/// The digit character of a number below ten.
pub open spec fn digit_char(d: nat) -> char {
    if d == 0 { '0' }
    else if d == 1 { '1' }
    else if d == 2 { '2' }
    else if d == 3 { '3' }
    else if d == 4 { '4' }
    else if d == 5 { '5' }
    else if d == 6 { '6' }
    else if d == 7 { '7' }
    else if d == 8 { '8' }
    else { '9' }
}

/// The value of a digit character.
pub open spec fn digit_value(c: char) -> nat {
    if '0' <= c && c <= '9' {
        (c as nat - '0' as nat) as nat
    } else {
        0
    }
}

/// The decimal digits of a number, without leading zeros.
pub open spec fn decimal(n: nat) -> Seq<char>
    decreases n,
{
    if n < 10 {
        seq![digit_char(n)]
    } else {
        decimal(n / 10).push(digit_char(n % 10))
    }
}

/// The value of a string of digits.
pub open spec fn decimal_value(s: Seq<char>) -> nat
    decreases s.len(),
{
    if s.len() == 0 {
        0
    } else {
        decimal_value(s.drop_last()) * 10 + digit_value(s.last())
    }
}

/// Whether every character is a decimal digit.
pub open spec fn all_digits(s: Seq<char>) -> bool {
    forall|i: int| 0 <= i < s.len() ==> '0' <= #[trigger] s[i] && s[i] <= '9'
}

/// What `str::parse::<usize>` gives for a text: the value of its digits,
/// after an optional `+`, when there is at least one digit, nothing else,
/// and the value fits in a `usize`.
pub open spec fn parsed_index(s: Seq<char>) -> Option<nat> {
    let d = if s.len() > 0 && s[0] == '+' {
        s.drop_first()
    } else {
        s
    };
    if d.len() > 0 && all_digits(d) && decimal_value(d) <= usize::MAX {
        Some(decimal_value(d))
    } else {
        None
    }
}

proof fn lemma_digit(d: nat)
    requires
        d < 10,
    ensures
        '0' <= digit_char(d) <= '9',
        digit_value(digit_char(d)) == d,
{
}

proof fn lemma_decimal(n: nat)
    ensures
        decimal(n).len() > 0,
        all_digits(decimal(n)),
        decimal_value(decimal(n)) == n,
    decreases n,
{
    if n < 10 {
        lemma_digit(n);
        let s = decimal(n);
        assert(s.drop_last() =~= Seq::<char>::empty());
        assert(decimal_value(s.drop_last()) == 0);
        assert(s.last() == digit_char(n));
        assert(decimal_value(s) == 0 * 10 + digit_value(digit_char(n)));
    } else {
        lemma_decimal(n / 10);
        lemma_digit(n % 10);
        let s = decimal(n);
        assert(s.drop_last() =~= decimal(n / 10));
        assert(s.last() == digit_char(n % 10));
        assert(decimal_value(s) == decimal_value(decimal(n / 10)) * 10 + digit_value(digit_char(n % 10)));
        assert(n == (n / 10) * 10 + n % 10) by (nonlinear_arith);
        assert(s.len() == decimal(n / 10).len() + 1);
        assert forall|i: int| 0 <= i < s.len() implies '0' <= #[trigger] s[i] && s[i] <= '9' by {
            if i < s.len() - 1 {
                assert(s[i] == decimal(n / 10)[i]);
            }
        }
    }
}

/// The decimal form of a number.
pub fn decimal_text(n: usize) -> (r: String)
    ensures
        r@ == decimal(n as nat),
    decreases n,
{
    let d: usize = n % 10;
    let c = if d == 0 { '0' }
        else if d == 1 { '1' }
        else if d == 2 { '2' }
        else if d == 3 { '3' }
        else if d == 4 { '4' }
        else if d == 5 { '5' }
        else if d == 6 { '6' }
        else if d == 7 { '7' }
        else if d == 8 { '8' }
        else { '9' };
    if n < 10 {
        let mut out = String::new();
        crate::text::push_char(&mut out, c);
        proof {
            assert(out@ =~= seq![digit_char(n as nat)]);
        }
        out
    } else {
        let mut out = decimal_text(n / 10);
        crate::text::push_char(&mut out, c);
        out
    }
}

proof fn lemma_value_grows(s: Seq<char>, k: int)
    requires
        0 <= k < s.len(),
    ensures
        decimal_value(s.take(k)) <= decimal_value(s.take(k + 1)),
{
    assert(s.take(k + 1).drop_last() =~= s.take(k));
}

proof fn lemma_value_prefix(s: Seq<char>, k: int)
    requires
        0 <= k <= s.len(),
    ensures
        decimal_value(s.take(k)) <= decimal_value(s),
    decreases s.len() - k,
{
    if k < s.len() {
        lemma_value_grows(s, k);
        lemma_value_prefix(s, k + 1);
    } else {
        assert(s.take(k) =~= s);
    }
}

/// The entry of `list` that the digits `s` name, as `s.parse::<usize>()`
/// followed by `list.get(..)` finds it.
pub open spec fn entry_named(list: Seq<Seq<char>>, s: Seq<char>) -> Option<Seq<char>> {
    match parsed_index(s) {
        Some(i) => if i < list.len() {
            Some(list[i as int])
        } else {
            None
        },
        None => None,
    }
}

/// The entry of `list` at the position written in `s`, if `s` is a number
/// and the position is in the list.
fn pick_entry(list: &Vec<String>, s: &str) -> (r: Option<String>)
    ensures
        opt_seq(r) == entry_named(texts(list@), s@),
{
    let cs = chars_of(s);
    let start: usize = if cs.len() > 0 && cs[0] == '+' { 1 } else { 0 };
    let ghost d = cs@.subrange(start as int, cs@.len() as int);
    proof {
        if cs@.len() > 0 && cs@[0] == '+' {
            assert(d =~= cs@.drop_first());
        } else {
            assert(d =~= cs@);
        }
    }
    if start >= cs.len() || list.len() == 0 {
        return None;
    }
    let mut v: usize = 0;
    let mut k: usize = start;
    while k < cs.len()
        invariant
            start <= k <= cs@.len(),
            cs@ == s@,
            d == cs@.subrange(start as int, cs@.len() as int),
            d == (if s@.len() > 0 && s@[0] == '+' {
                s@.drop_first()
            } else {
                s@
            }),
            all_digits(d.take(k - start)),
            v == decimal_value(d.take(k - start)),
            v < list@.len(),
        decreases cs.len() - k,
    {
        let c = cs[k];
        if c < '0' || c > '9' {
            proof {
                assert(d[k - start] == c);
                assert(!all_digits(d));
            }
            return None;
        }
        let dv: usize = if c == '0' { 0 }
            else if c == '1' { 1 }
            else if c == '2' { 2 }
            else if c == '3' { 3 }
            else if c == '4' { 4 }
            else if c == '5' { 5 }
            else if c == '6' { 6 }
            else if c == '7' { 7 }
            else if c == '8' { 8 }
            else { 9 };
        proof {
            assert(d[k - start] == c);
            assert(d.take(k - start + 1).drop_last() =~= d.take(k - start));
            assert(d.take(k - start + 1).last() == c);
            assert(dv == digit_value(c));
        }
        let next: u128 = (v as u128) * 10 + (dv as u128);
        if next >= list.len() as u128 {
            proof {
                assert(decimal_value(d.take(k - start + 1)) == decimal_value(d.take(k - start)) * 10
                    + digit_value(c));
                assert(decimal_value(d.take(k - start + 1)) == next);
                lemma_value_prefix(d, k - start + 1);
                assert(decimal_value(d) >= list@.len());
            }
            return None;
        }
        v = next as usize;
        k += 1;
    }
    proof {
        assert(d.take(k - start) =~= d);
    }
    Some(list[v].clone())
}

/// The text of an optional string.
pub open spec fn opt_seq(o: Option<String>) -> Option<Seq<char>> {
    match o {
        Some(s) => Some(s@),
        None => None,
    }
}

// ---------------------------------------------------------------------------
// The menu
// ---------------------------------------------------------------------------

/// An entry of a menu.
#[derive(Debug, PartialEq)]
pub enum MenuEntry {
    Item { id: String, label: String, enabled: bool, accelerator: Option<String> },
    Separator,
    Submenu { label: String, entries: Vec<MenuEntry> },
}

/// The mathematical value of a menu entry; a submenu is seen by its label.
pub enum EntryView {
    Item { id: Seq<char>, label: Seq<char>, enabled: bool, accelerator: Option<Seq<char>> },
    Separator,
    Submenu { label: Seq<char> },
}

/// The value of a menu entry: an item's id, label, whether it can be chosen
/// and its keyboard shortcut; a separator; a submenu's label.
pub open spec fn entry_view(e: MenuEntry) -> EntryView {
    match e {
        MenuEntry::Item { id, label, enabled, accelerator } => EntryView::Item {
            id: id@,
            label: label@,
            enabled,
            accelerator: opt_seq(accelerator),
        },
        MenuEntry::Separator => EntryView::Separator,
        MenuEntry::Submenu { label, .. } => EntryView::Submenu { label: label@ },
    }
}

/// An item without a keyboard shortcut.
pub open spec fn plain_item(id: Seq<char>, label: Seq<char>, enabled: bool) -> EntryView {
    EntryView::Item { id, label, enabled, accelerator: None }
}

/// The label of a recent entry: its last path component, or the whole path
/// when it has none.
pub open spec fn recent_label(path: Seq<char>) -> Seq<char> {
    match path_file_name(path) {
        Some(n) => n,
        None => path,
    }
}

/// The items for the first `RECENT_MENU_CAP` entries of a recent list, with
/// ids `prefix` followed by the position.
pub open spec fn recent_items(list: Seq<Seq<char>>, prefix: Seq<char>) -> Seq<EntryView> {
    let n = if list.len() <= RECENT_MENU_CAP {
        list.len() as int
    } else {
        RECENT_MENU_CAP as int
    };
    Seq::new(n as nat, |i: int| plain_item(prefix + decimal(i as nat), recent_label(list[i]), true))
}

/// The "Open Recent" submenu: a disabled placeholder when both lists are
/// empty; else the files under a disabled header, a separator between the
/// lists when both are there, the folders under a disabled header, and after
/// a separator the item that clears both lists.
pub open spec fn recent_menu_spec(files: Seq<Seq<char>>, folders: Seq<Seq<char>>) -> Seq<EntryView> {
    if files.len() == 0 && folders.len() == 0 {
        seq![plain_item("recent.empty"@, "No Recent Items"@, false)]
    } else {
        (if files.len() > 0 {
            seq![plain_item("recent.header.files"@, "Recent Files"@, false)] + recent_items(files, "recent.file:"@)
        } else {
            Seq::empty()
        }) + (if files.len() > 0 && folders.len() > 0 {
            seq![EntryView::Separator]
        } else {
            Seq::empty()
        }) + (if folders.len() > 0 {
            seq![plain_item("recent.header.folders"@, "Recent Folders"@, false)] + recent_items(folders, "recent.folder:"@)
        } else {
            Seq::empty()
        }) + seq![EntryView::Separator, plain_item("recent.clear"@, "Clear Recent"@, true)]
    }
}

/// The views of a list of menu entries.
pub open spec fn entries_view(v: Seq<MenuEntry>) -> Seq<EntryView> {
    v.map_values(|e: MenuEntry| entry_view(e))
}

/// An item that can or cannot be chosen, without a shortcut.
fn item(id: String, label: String, enabled: bool) -> (r: MenuEntry)
    ensures
        entry_view(r) == plain_item(id@, label@, enabled),
{
    MenuEntry::Item { id, label, enabled, accelerator: None }
}

/// Appends the items for a recent list.
fn push_recent_items(out: &mut Vec<MenuEntry>, list: &Vec<String>, prefix: &str)
    ensures
        entries_view(final(out)@) == entries_view(old(out)@) + recent_items(texts(list@), prefix@),
{
    let n: usize = if list.len() <= RECENT_MENU_CAP { list.len() } else { RECENT_MENU_CAP };
    let ghost base = entries_view(old(out)@);
    let mut i: usize = 0;
    while i < n
        invariant
            i <= n,
            n as int == (if list@.len() <= RECENT_MENU_CAP { list@.len() as int } else { RECENT_MENU_CAP as int }),
            n <= list@.len(),
            base == entries_view(old(out)@),
            entries_view(out@) == base + recent_items(texts(list@), prefix@).take(i as int),
        decreases n - i,
    {
        let label = match file_name_of(list[i].as_str()) {
            Some(name) => name,
            None => list[i].clone(),
        };
        let id = concat(prefix, decimal_text(i).as_str());
        let ghost before = entries_view(out@);
        out.push(item(id, label, true));
        proof {
            let items = recent_items(texts(list@), prefix@);
            assert(items.take(i + 1) =~= items.take(i as int).push(items[i as int]));
            assert(entries_view(out@) =~= before.push(items[i as int]));
        }
        i += 1;
    }
    proof {
        let items = recent_items(texts(list@), prefix@);
        assert(items.take(n as int) =~= items);
    }
}

/// The entries of the "Open Recent" submenu.
pub fn recent_menu(recent_files: &Vec<String>, recent_folders: &Vec<String>) -> (r: Vec<MenuEntry>)
    ensures
        entries_view(r@) == recent_menu_spec(texts(recent_files@), texts(recent_folders@)),
{
    let mut out: Vec<MenuEntry> = Vec::new();
    if recent_files.len() == 0 && recent_folders.len() == 0 {
        out.push(item(String::from_str("recent.empty"), String::from_str("No Recent Items"), false));
        proof {
            assert(entries_view(out@) =~= seq![plain_item("recent.empty"@, "No Recent Items"@, false)]);
        }
        return out;
    }
    let ghost files = texts(recent_files@);
    let ghost folders = texts(recent_folders@);
    let ghost part1: Seq<EntryView> = if files.len() > 0 {
        seq![plain_item("recent.header.files"@, "Recent Files"@, false)] + recent_items(files, "recent.file:"@)
    } else {
        Seq::empty()
    };
    if recent_files.len() > 0 {
        out.push(item(String::from_str("recent.header.files"), String::from_str("Recent Files"), false));
        push_recent_items(&mut out, recent_files, "recent.file:");
    }
    proof {
        assert(entries_view(out@) =~= part1);
    }
    let ghost part2: Seq<EntryView> = if files.len() > 0 && folders.len() > 0 {
        seq![EntryView::Separator]
    } else {
        Seq::empty()
    };
    if recent_files.len() > 0 && recent_folders.len() > 0 {
        out.push(MenuEntry::Separator);
    }
    proof {
        assert(entries_view(out@) =~= part1 + part2);
    }
    let ghost part3: Seq<EntryView> = if folders.len() > 0 {
        seq![plain_item("recent.header.folders"@, "Recent Folders"@, false)] + recent_items(folders, "recent.folder:"@)
    } else {
        Seq::empty()
    };
    if recent_folders.len() > 0 {
        out.push(item(String::from_str("recent.header.folders"), String::from_str("Recent Folders"), false));
        push_recent_items(&mut out, recent_folders, "recent.folder:");
    }
    proof {
        assert(entries_view(out@) =~= part1 + part2 + part3);
    }
    out.push(MenuEntry::Separator);
    out.push(item(String::from_str("recent.clear"), String::from_str("Clear Recent"), true));
    proof {
        assert(entries_view(out@) =~= part1 + part2 + part3 + seq![EntryView::Separator, plain_item("recent.clear"@, "Clear Recent"@, true)]);
    }
    out
}

/// The label and entries of a submenu.
pub open spec fn submenu_of(e: MenuEntry) -> Option<(Seq<char>, Seq<MenuEntry>)> {
    match e {
        MenuEntry::Submenu { label, entries } => Some((label@, entries@)),
        _ => None,
    }
}

/// An item that can be chosen, with a keyboard shortcut.
pub open spec fn shortcut_entry(id: Seq<char>, label: Seq<char>, accelerator: Seq<char>) -> EntryView {
    EntryView::Item { id, label, enabled: true, accelerator: Some(accelerator) }
}

/// An item with a keyboard shortcut.
fn shortcut_item(id: &str, label: &str, accelerator: &str) -> (r: MenuEntry)
    ensures
        entry_view(r) == shortcut_entry(id@, label@, accelerator@),
{
    MenuEntry::Item {
        id: id.to_string(),
        label: label.to_string(),
        enabled: true,
        accelerator: Some(accelerator.to_string()),
    }
}

/// The entries of the "File" menu: new file (Cmd/Ctrl+N), open file
/// (Cmd/Ctrl+O), open folder (Cmd/Ctrl+Shift+O), a separator, the "Open
/// Recent" submenu, a separator, save (Cmd/Ctrl+S), HTML export.
pub open spec fn file_menu_entries(e: Seq<MenuEntry>, files: Seq<Seq<char>>, folders: Seq<Seq<char>>) -> bool {
    &&& e.len() == 8
    &&& entry_view(e[0]) == shortcut_entry("file.new"@, "New File"@, "CmdOrCtrl+N"@)
    &&& entry_view(e[1]) == shortcut_entry("file.open-file"@, "Open File\u{2026}"@, "CmdOrCtrl+O"@)
    &&& entry_view(e[2]) == shortcut_entry("file.open-folder"@, "Open Folder\u{2026}"@, "CmdOrCtrl+Shift+O"@)
    &&& e[3] is Separator
    &&& submenu_of(e[4]) matches Some((l, sub)) && l == "Open Recent"@ && entries_view(sub)
        == recent_menu_spec(files, folders)
    &&& e[5] is Separator
    &&& entry_view(e[6]) == shortcut_entry("file.save"@, "Save"@, "CmdOrCtrl+S"@)
    &&& entry_view(e[7]) == plain_item("file.export"@, "Export HTML\u{2026}"@, true)
}

/// The "File" menu: new file, open file, open folder, the "Open Recent"
/// submenu, save, and HTML export.
pub fn file_menu(recent_files: &Vec<String>, recent_folders: &Vec<String>) -> (r: MenuEntry)
    ensures
        submenu_of(r) matches Some((label, entries)) && label == "File"@ && file_menu_entries(
            entries,
            texts(recent_files@),
            texts(recent_folders@),
        ),
{
    let mut entries: Vec<MenuEntry> = Vec::new();
    entries.push(shortcut_item("file.new", "New File", "CmdOrCtrl+N"));
    entries.push(shortcut_item("file.open-file", "Open File\u{2026}", "CmdOrCtrl+O"));
    entries.push(shortcut_item("file.open-folder", "Open Folder\u{2026}", "CmdOrCtrl+Shift+O"));
    entries.push(MenuEntry::Separator);
    entries.push(MenuEntry::Submenu { label: String::from_str("Open Recent"), entries: recent_menu(recent_files, recent_folders) });
    entries.push(MenuEntry::Separator);
    entries.push(shortcut_item("file.save", "Save", "CmdOrCtrl+S"));
    entries.push(item(String::from_str("file.export"), String::from_str("Export HTML\u{2026}"), true));
    MenuEntry::Submenu { label: String::from_str("File"), entries }
}

// ---------------------------------------------------------------------------
// Choosing an item
// ---------------------------------------------------------------------------

/// What choosing a menu item does.
#[derive(Debug, Clone, PartialEq)]
pub enum MenuAction {
    OpenRecentFile(String),
    OpenRecentFolder(String),
    NewFile,
    OpenFile,
    OpenFolder,
    Save,
    Export,
    ClearRecent,
    Nothing,
}

/// The action of the item with id `id`, given the recent lists the menu was
/// built from.
pub open spec fn action_spec(id: Seq<char>, files: Seq<Seq<char>>, folders: Seq<Seq<char>>) -> MenuActionView {
    if seq_starts_with(id, "recent.file:"@) {
        match entry_named(files, id.skip(12)) {
            Some(p) => MenuActionView::OpenRecentFile(p),
            None => MenuActionView::Nothing,
        }
    } else if seq_starts_with(id, "recent.folder:"@) {
        match entry_named(folders, id.skip(14)) {
            Some(p) => MenuActionView::OpenRecentFolder(p),
            None => MenuActionView::Nothing,
        }
    } else if id == "file.new"@ {
        MenuActionView::NewFile
    } else if id == "file.open-file"@ {
        MenuActionView::OpenFile
    } else if id == "file.open-folder"@ {
        MenuActionView::OpenFolder
    } else if id == "file.save"@ {
        MenuActionView::Save
    } else if id == "file.export"@ {
        MenuActionView::Export
    } else if id == "recent.clear"@ {
        MenuActionView::ClearRecent
    } else {
        MenuActionView::Nothing
    }
}

/// The mathematical value of a menu action.
pub enum MenuActionView {
    OpenRecentFile(Seq<char>),
    OpenRecentFolder(Seq<char>),
    NewFile,
    OpenFile,
    OpenFolder,
    Save,
    Export,
    ClearRecent,
    Nothing,
}

/// The value of a menu action.
pub open spec fn action_view(a: MenuAction) -> MenuActionView {
    match a {
        MenuAction::OpenRecentFile(p) => MenuActionView::OpenRecentFile(p@),
        MenuAction::OpenRecentFolder(p) => MenuActionView::OpenRecentFolder(p@),
        MenuAction::NewFile => MenuActionView::NewFile,
        MenuAction::OpenFile => MenuActionView::OpenFile,
        MenuAction::OpenFolder => MenuActionView::OpenFolder,
        MenuAction::Save => MenuActionView::Save,
        MenuAction::Export => MenuActionView::Export,
        MenuAction::ClearRecent => MenuActionView::ClearRecent,
        MenuAction::Nothing => MenuActionView::Nothing,
    }
}

/// The action of the menu item with id `id`.
pub fn menu_action(id: &str, recent_files: &Vec<String>, recent_folders: &Vec<String>) -> (r: MenuAction)
    ensures
        action_view(r) == action_spec(id@, texts(recent_files@), texts(recent_folders@)),
{
    proof {
        reveal_strlit("recent.file:");
        reveal_strlit("recent.folder:");
    }
    if str_starts_with(id, "recent.file:") {
        let cs = chars_of(id);
        let rest = string_from_range(cs.as_slice(), 12, cs.len());
        proof {
            assert(rest@ =~= id@.skip(12));
        }
        return match pick_entry(recent_files, rest.as_str()) {
            Some(p) => MenuAction::OpenRecentFile(p),
            None => MenuAction::Nothing,
        };
    }
    if str_starts_with(id, "recent.folder:") {
        let cs = chars_of(id);
        let rest = string_from_range(cs.as_slice(), 14, cs.len());
        proof {
            assert(rest@ =~= id@.skip(14));
        }
        return match pick_entry(recent_folders, rest.as_str()) {
            Some(p) => MenuAction::OpenRecentFolder(p),
            None => MenuAction::Nothing,
        };
    }
    if str_equal(id, "file.new") {
        MenuAction::NewFile
    } else if str_equal(id, "file.open-file") {
        MenuAction::OpenFile
    } else if str_equal(id, "file.open-folder") {
        MenuAction::OpenFolder
    } else if str_equal(id, "file.save") {
        MenuAction::Save
    } else if str_equal(id, "file.export") {
        MenuAction::Export
    } else if str_equal(id, "recent.clear") {
        MenuAction::ClearRecent
    } else {
        MenuAction::Nothing
    }
}

/// "Clear Recent": both recent lists become empty.
pub fn clear_recent(recent_files: &mut Vec<String>, recent_folders: &mut Vec<String>)
    ensures
        final(recent_files)@.len() == 0,
        final(recent_folders)@.len() == 0,
{
    recent_files.clear();
    recent_folders.clear();
}

// ---------------------------------------------------------------------------
// Laws
// ---------------------------------------------------------------------------

/// Choosing the `i`-th recent file item shown in the menu opens the `i`-th recent
/// file, and likewise for folders: the ids the menu is built with are read
/// back as the positions they were made from.
pub proof fn law_recent_item_round_trip(files: Seq<Seq<char>>, folders: Seq<Seq<char>>, i: nat)
    requires
        i < RECENT_MENU_CAP,
    ensures
        i < files.len() ==> action_spec("recent.file:"@ + decimal(i), files, folders)
            == MenuActionView::OpenRecentFile(files[i as int]),
        i < folders.len() ==> action_spec("recent.folder:"@ + decimal(i), files, folders)
            == MenuActionView::OpenRecentFolder(folders[i as int]),
{
    reveal_strlit("recent.file:");
    reveal_strlit("recent.folder:");
    lemma_decimal(i);
    let d = decimal(i);
    assert(d[0] != '+');
    let f = "recent.file:"@ + d;
    assert(f.skip(12) =~= d);
    assert(seq_starts_with(f, "recent.file:"@)) by {
        assert(f.take(12) =~= "recent.file:"@);
    }
    let g = "recent.folder:"@ + d;
    assert(g.skip(14) =~= d);
    assert(seq_starts_with(g, "recent.folder:"@)) by {
        assert(g.take(14) =~= "recent.folder:"@);
    }
    assert(!seq_starts_with(g, "recent.file:"@)) by {
        assert(g[8] != "recent.file:"@[8]);
    }
}

} // verus!
