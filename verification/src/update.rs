//! Self-update: what a release offers, the update state that the commands
//! share, and the messages shown to the user.
use vstd::prelude::*;
use crate::text::{chars_of, concat, seq_ends_with, str_equal, string_from_range, str_ends_with};

verus! {

/// A newer release: its version and the address of its disk image.
#[derive(Debug, Clone, PartialEq)]
pub struct UpdateInfo {
    pub version: String,
    pub download_url: String,
}

impl UpdateInfo {
    /// A copy of this record.
    pub fn copy(&self) -> (r: UpdateInfo)
        ensures
            r == *self,
    {
        UpdateInfo { version: self.version.clone(), download_url: self.download_url.clone() }
    }
}

/// Where the update process stands.
#[derive(Debug, Clone, PartialEq)]
pub enum UpdateStatus {
    Idle,
    Checking,
    Available { version: String },
    Downloading,
    Installing,
    Ready,
    Error(String),
}

impl UpdateStatus {
    /// A copy of this status.
    pub fn copy(&self) -> (r: UpdateStatus)
        ensures
            r == *self,
    {
        match self {
            UpdateStatus::Idle => UpdateStatus::Idle,
            UpdateStatus::Checking => UpdateStatus::Checking,
            UpdateStatus::Available { version } => UpdateStatus::Available { version: version.clone() },
            UpdateStatus::Downloading => UpdateStatus::Downloading,
            UpdateStatus::Installing => UpdateStatus::Installing,
            UpdateStatus::Ready => UpdateStatus::Ready,
            UpdateStatus::Error(m) => UpdateStatus::Error(m.clone()),
        }
    }
}

/// The ways in which checking for, fetching or installing an update fails.
#[derive(Debug, Clone, PartialEq)]
pub enum UpdateError {
    NetworkError(String),
    ApiError(String),
    ParseError(String),
    AssetNotFound,
    VersionParseError(String),
    DownloadFailed(String),
    DmgMountFailed(String),
    AppNotFoundInDmg,
    CopyFailed(String),
    VerificationFailed { expected: String, found: String },
}

/// The sentence shown to the user for each kind of failure; the detail that a
/// variant carries is not shown.
pub open spec fn error_message(e: UpdateError) -> Seq<char> {
    match e {
        UpdateError::NetworkError(_) => "Couldn\u{2019}t reach GitHub \u{2014} check your connection"@,
        UpdateError::ApiError(_) => "GitHub API error \u{2014} try again later"@,
        UpdateError::ParseError(_) => "Unexpected response from GitHub"@,
        UpdateError::AssetNotFound => "No macOS update found in this release"@,
        UpdateError::VersionParseError(_) => "Invalid version format in release"@,
        UpdateError::DownloadFailed(_) => "Download failed \u{2014} check your connection"@,
        UpdateError::DmgMountFailed(_) => "Couldn\u{2019}t open the update file"@,
        UpdateError::AppNotFoundInDmg => "Update file is damaged or incomplete"@,
        UpdateError::CopyFailed(_) => "Couldn\u{2019}t install update \u{2014} check /Applications permissions"@,
        UpdateError::VerificationFailed { .. } => "Update installed but version doesn\u{2019}t match \u{2014} try updating manually"@,
    }
}

impl UpdateError {
    /// The message shown to the user for this failure.
    pub fn message(&self) -> (r: String)
        ensures
            r@ == error_message(*self),
    {
        match self {
            UpdateError::NetworkError(_) => String::from_str("Couldn\u{2019}t reach GitHub \u{2014} check your connection"),
            UpdateError::ApiError(_) => String::from_str("GitHub API error \u{2014} try again later"),
            UpdateError::ParseError(_) => String::from_str("Unexpected response from GitHub"),
            UpdateError::AssetNotFound => String::from_str("No macOS update found in this release"),
            UpdateError::VersionParseError(_) => String::from_str("Invalid version format in release"),
            UpdateError::DownloadFailed(_) => String::from_str("Download failed \u{2014} check your connection"),
            UpdateError::DmgMountFailed(_) => String::from_str("Couldn\u{2019}t open the update file"),
            UpdateError::AppNotFoundInDmg => String::from_str("Update file is damaged or incomplete"),
            UpdateError::CopyFailed(_) => String::from_str("Couldn\u{2019}t install update \u{2014} check /Applications permissions"),
            UpdateError::VerificationFailed { .. } => String::from_str("Update installed but version doesn\u{2019}t match \u{2014} try updating manually"),
        }
    }
}

/// The payload of an `update-status` event.
#[derive(Debug, Clone, PartialEq)]
pub struct StatusEvent {
    pub status: UpdateStatus,
}

/// The update state that the commands and the background checker share.
#[derive(Debug)]
pub struct UpdateState {
    pub status: UpdateStatus,
    pub available: Option<UpdateInfo>,
    pub update_in_progress: bool,
}

impl UpdateState {
    /// Nothing checked yet: idle, no update known, no install running.
    pub fn new() -> (r: Self)
        ensures
            r.status == UpdateStatus::Idle,
            r.available is None,
            !r.update_in_progress,
    {
        UpdateState { status: UpdateStatus::Idle, available: None, update_in_progress: false }
    }

    /// The current status (what `get_update_status` answers).
    pub fn current_status(&self) -> (r: UpdateStatus)
        ensures
            r == self.status,
    {
        self.status.copy()
    }

    /// A check begins: the status becomes `Checking`, which is announced.
    pub fn begin_check(&mut self) -> (ev: StatusEvent)
        ensures
            final(self).status == UpdateStatus::Checking,
            final(self).available == old(self).available,
            final(self).update_in_progress == old(self).update_in_progress,
            ev.status == UpdateStatus::Checking,
    {
        self.status = UpdateStatus::Checking;
        StatusEvent { status: UpdateStatus::Checking }
    }

    /// A check has ended with `outcome`. A newer release is remembered and
    /// announced as `Available`; none found makes the state `Idle`; a failure
    /// becomes `Error` with the failure's message. The release found, if any,
    /// is returned with the event to announce.
    pub fn finish_check(&mut self, outcome: Result<Option<UpdateInfo>, UpdateError>) -> (r: (
        Option<UpdateInfo>,
        StatusEvent,
    ))
        ensures
            final(self).update_in_progress == old(self).update_in_progress,
            r.1.status == final(self).status,
            match outcome {
                Ok(Some(info)) => {
                    &&& r.0 == Some(info)
                    &&& final(self).available == Some(info)
                    &&& final(self).status == UpdateStatus::Available { version: info.version }
                },
                Ok(None) => {
                    &&& r.0 is None
                    &&& final(self).available == old(self).available
                    &&& final(self).status == UpdateStatus::Idle
                },
                Err(e) => {
                    &&& r.0 is None
                    &&& final(self).available == old(self).available
                    &&& final(self).status matches UpdateStatus::Error(m) && m@ == error_message(e)
                },
            },
    {
        match outcome {
            Ok(Some(info)) => {
                self.available = Some(info.copy());
                self.status = UpdateStatus::Available { version: info.version.clone() };
                let ev = StatusEvent { status: self.status.copy() };
                (Some(info), ev)
            },
            Ok(None) => {
                self.status = UpdateStatus::Idle;
                (None, StatusEvent { status: UpdateStatus::Idle })
            },
            Err(e) => {
                self.status = UpdateStatus::Error(e.message());
                let ev = StatusEvent { status: self.status.copy() };
                (None, ev)
            },
        }
    }

    /// An install begins: it is marked as running and `Downloading` is
    /// announced; the stored status is left as it was.
    pub fn begin_install(&mut self) -> (ev: StatusEvent)
        ensures
            final(self).update_in_progress,
            final(self).status == old(self).status,
            final(self).available == old(self).available,
            ev.status == UpdateStatus::Downloading,
    {
        self.update_in_progress = true;
        StatusEvent { status: UpdateStatus::Downloading }
    }

    /// An install has ended. Success makes the state `Ready` (the install
    /// stays marked as running until the restart); a failure clears the mark
    /// and becomes `Error` with the failure's text.
    pub fn finish_install(&mut self, outcome: Result<(), String>) -> (ev: StatusEvent)
        ensures
            final(self).available == old(self).available,
            ev.status == final(self).status,
            match outcome {
                Ok(()) => {
                    &&& final(self).status == UpdateStatus::Ready
                    &&& final(self).update_in_progress == old(self).update_in_progress
                },
                Err(m) => {
                    &&& final(self).status == UpdateStatus::Error(m)
                    &&& !final(self).update_in_progress
                },
            },
    {
        match outcome {
            Ok(()) => {
                self.status = UpdateStatus::Ready;
                StatusEvent { status: UpdateStatus::Ready }
            },
            Err(m) => {
                self.update_in_progress = false;
                let ev = StatusEvent { status: UpdateStatus::Error(m.clone()) };
                self.status = UpdateStatus::Error(m);
                ev
            },
        }
    }

    /// The release to install when the user asks to update: the one last
    /// found, or the error `No update available`.
    pub fn pending_install(&self) -> (r: Result<UpdateInfo, String>)
        ensures
            match self.available {
                Some(info) => r == Ok::<UpdateInfo, String>(info),
                None => r matches Err(m) && m@ == "No update available"@,
            },
    {
        match &self.available {
            Some(info) => Ok(info.copy()),
            None => Err(String::from_str("No update available")),
        }
    }

    /// The user dismisses the offered update: it is forgotten, the state
    /// becomes `Idle`, and its version is returned so that it can be
    /// remembered as dismissed.
    pub fn dismiss(&mut self) -> (dismissed: Option<String>)
        ensures
            final(self).available is None,
            final(self).status == UpdateStatus::Idle,
            final(self).update_in_progress == old(self).update_in_progress,
            dismissed == match old(self).available {
                Some(info) => Some(info.version),
                None => None::<String>,
            },
    {
        let taken = self.available.take();
        self.status = UpdateStatus::Idle;
        match taken {
            Some(info) => Some(info.version),
            None => None,
        }
    }
}

// ---------------------------------------------------------------------------
// Versions
// ---------------------------------------------------------------------------

/// The version of this build.
pub fn current_version() -> (r: &'static str)
    ensures
        r@ == "0.4.0"@,
{
    "0.4.0"
}

#[verifier::external_type_specification]
#[verifier::external_body]
pub struct ExSemverVersion(semver::Version);

/// What `semver::Version::parse` says of a text: `None` when it is a valid
/// semantic version, else the text of the parse error.
pub uninterp spec fn semver_parse_error(text: Seq<char>) -> Option<Seq<char>>;

/// Whether the version parsed from `a` comes at or before the one parsed
/// from `b` in `semver::Version`'s order (major, minor, patch, pre-release,
/// build metadata).
pub uninterp spec fn semver_le(a: Seq<char>, b: Seq<char>) -> bool;

/// A semantic version together with the text it was read from.
pub struct ParsedVersion {
    text: String,
    version: semver::Version,
}

impl ParsedVersion {
    /// The text that the version was read from.
    pub closed spec fn text(&self) -> Seq<char> {
        self.text@
    }

    #[verifier::type_invariant]
    spec fn parsed(&self) -> bool {
        semver_parse_error(self.text@) is None
    }
}

/// `semver::Version::parse`, with the error turned into its message.
/// Claimed: it fails exactly when `semver_parse_error` names an error, and
/// then with that message; on success the text is kept with the version.
#[verifier::external_body]
fn parse_version(text: &str) -> (r: Result<ParsedVersion, String>)
    ensures
        match semver_parse_error(text@) {
            None => r matches Ok(v) && v.text() == text@,
            Some(m) => r matches Err(e) && e@ == m,
        },
{
    match semver::Version::parse(text) {
        Ok(version) => Ok(ParsedVersion { text: text.to_string(), version }),
        Err(e) => Err(e.to_string()),
    }
}

/// `<=` on two `semver::Version`s. Claimed: the result is `semver_le` of the
/// texts they were read from; a version is at or before itself.
#[verifier::external_body]
fn version_le(a: &ParsedVersion, b: &ParsedVersion) -> (r: bool)
    ensures
        r == semver_le(a.text(), b.text()),
        a.text() == b.text() ==> r,
{
    a.version <= b.version
}

// ---------------------------------------------------------------------------
// Releases
// ---------------------------------------------------------------------------

/// The file-name ending of the macOS disk image among a release's assets.
pub open spec fn installer_suffix() -> Seq<char> {
    "-macos-universal.dmg"@
}

/// One downloadable file of a release, as far as the release data gives
/// its name and download address as text.
#[derive(Debug)]
pub struct ReleaseAsset {
    pub name: Option<String>,
    pub browser_download_url: Option<String>,
}

/// The latest release, as far as the release data gives its tag as text and
/// its assets as a list.
#[derive(Debug)]
pub struct Release {
    pub tag_name: Option<String>,
    pub assets: Option<Vec<ReleaseAsset>>,
}

/// The text with every leading `v` removed.
pub open spec fn without_leading_v(s: Seq<char>) -> Seq<char>
    decreases s.len(),
{
    if s.len() > 0 && s[0] == 'v' {
        without_leading_v(s.drop_first())
    } else {
        s
    }
}

/// Whether an asset is the macOS disk image.
pub open spec fn is_installer(a: ReleaseAsset) -> bool {
    a.name matches Some(n) && seq_ends_with(n@, installer_suffix())
}

/// The position of the first disk image among `assets[from..]`.
pub open spec fn first_installer_from(assets: Seq<ReleaseAsset>, from: int) -> Option<int>
    decreases assets.len() - from,
{
    if from < 0 || from >= assets.len() {
        None
    } else if is_installer(assets[from]) {
        Some(from)
    } else {
        first_installer_from(assets, from + 1)
    }
}

/// What checking a release against the current version gives: `res` is the
/// outcome that the release data and the current version call for.
pub open spec fn release_outcome(r: Release, current: Seq<char>, res: Result<Option<UpdateInfo>, UpdateError>) -> bool {
    match r.tag_name {
        None => res matches Err(UpdateError::ParseError(m)) && m@ == "missing tag_name"@,
        Some(tag) => {
            let remote = without_leading_v(tag@);
            if let Some(msg) = semver_parse_error(remote) {
                res matches Err(UpdateError::VersionParseError(m)) && m@ == msg
            } else if let Some(msg) = semver_parse_error(current) {
                res matches Err(UpdateError::VersionParseError(m)) && m@ == msg
            } else if semver_le(remote, current) {
                res matches Ok(None)
            } else {
                match r.assets {
                    None => res matches Err(UpdateError::ParseError(m)) && m@ == "missing assets array"@,
                    Some(assets) => match first_installer_from(assets@, 0) {
                        None => res matches Err(UpdateError::AssetNotFound),
                        Some(i) => match assets@[i].browser_download_url {
                            None => res matches Err(UpdateError::ParseError(m)) && m@
                                == "missing download URL"@,
                            Some(u) => res matches Ok(Some(info)) && info.version@ == remote
                                && info.download_url@ == u@,
                        },
                    },
                }
            }
        },
    }
}

/// The text with every leading `v` removed.
pub fn strip_leading_v(s: &str) -> (r: String)
    ensures
        r@ == without_leading_v(s@),
{
    let cs = chars_of(s);
    let mut i: usize = 0;
    proof {
        assert(cs@.subrange(0, cs@.len() as int) =~= cs@);
    }
    while i < cs.len() && cs[i] == 'v'
        invariant
            i <= cs@.len(),
            cs@ == s@,
            without_leading_v(s@) == without_leading_v(cs@.subrange(i as int, cs@.len() as int)),
        decreases cs.len() - i,
    {
        proof {
            let rest = cs@.subrange(i as int, cs@.len() as int);
            assert(rest.drop_first() =~= cs@.subrange(i + 1, cs@.len() as int));
        }
        i += 1;
    }
    string_from_range(cs.as_slice(), i, cs.len())
}

proof fn lemma_first_installer_bounds(assets: Seq<ReleaseAsset>, from: int)
    ensures
        first_installer_from(assets, from) matches Some(i) ==> 0 <= from <= i < assets.len()
            && is_installer(assets[i]),
    decreases assets.len() - from,
{
    if 0 <= from < assets.len() && !is_installer(assets[from]) {
        lemma_first_installer_bounds(assets, from + 1);
    }
}

/// The position of the first disk image among the assets.
fn find_installer(assets: &Vec<ReleaseAsset>) -> (r: Option<usize>)
    ensures
        match first_installer_from(assets@, 0) {
            None => r is None,
            Some(i) => r == Some(i as usize),
        },
        r matches Some(j) ==> j < assets@.len() && first_installer_from(assets@, 0) == Some(
            j as int,
        ),
{
    proof {
        lemma_first_installer_bounds(assets@, 0);
    }
    let mut i: usize = 0;
    while i < assets.len()
        invariant
            i <= assets@.len(),
            first_installer_from(assets@, 0) == first_installer_from(assets@, i as int),
        decreases assets.len() - i,
    {
        let hit = match &assets[i].name {
            Some(n) => str_ends_with(n.as_str(), "-macos-universal.dmg"),
            None => false,
        };
        proof {
            reveal_strlit("-macos-universal.dmg");
        }
        if hit {
            return Some(i);
        }
        i += 1;
    }
    None
}

/// Compares the latest release with the `current` version: no update when
/// the release is not newer, else the release's version and the address of
/// its macOS disk image; an error when the data lacks what is needed.
pub fn evaluate_release(release: &Release, current: &str) -> (res: Result<Option<UpdateInfo>, UpdateError>)
    ensures
        release_outcome(*release, current@, res),
        release.tag_name matches Some(t) && without_leading_v(t@) == current@ && semver_parse_error(
            current@,
        ) is None ==> res matches Ok(None),
{
    proof {
        reveal_strlit("missing tag_name");
        reveal_strlit("missing assets array");
        reveal_strlit("missing download URL");
    }
    let tag = match &release.tag_name {
        None => return Err(UpdateError::ParseError(String::from_str("missing tag_name"))),
        Some(t) => t,
    };
    let remote_text = strip_leading_v(tag.as_str());
    let remote = match parse_version(remote_text.as_str()) {
        Ok(v) => v,
        Err(m) => return Err(UpdateError::VersionParseError(m)),
    };
    let here = match parse_version(current) {
        Ok(v) => v,
        Err(m) => return Err(UpdateError::VersionParseError(m)),
    };
    if version_le(&remote, &here) {
        return Ok(None);
    }
    let assets = match &release.assets {
        None => return Err(UpdateError::ParseError(String::from_str("missing assets array"))),
        Some(a) => a,
    };
    let i = match find_installer(assets) {
        None => return Err(UpdateError::AssetNotFound),
        Some(i) => i,
    };
    match &assets[i].browser_download_url {
        None => Err(UpdateError::ParseError(String::from_str("missing download URL"))),
        Some(u) => {
            Ok(Some(UpdateInfo { version: remote_text, download_url: u.clone() }))
        },
    }
}

// ---------------------------------------------------------------------------
// Background checking and self-watching
// ---------------------------------------------------------------------------

/// What the periodic check does with a release it found: whether the stored
/// dismissed version is cleared, and whether the release is installed.
#[derive(Debug)]
pub struct BackgroundDecision {
    pub clear_dismissed: bool,
    pub install: bool,
}

/// Whether the user dismissed exactly this version.
pub open spec fn is_dismissed(found: Seq<char>, dismissed: Option<String>) -> bool {
    dismissed matches Some(d) && d@ == found
}

/// The periodic check found `found_version`. A version the user dismissed is
/// skipped; any other makes a stale dismissed version be forgotten, and is
/// installed when automatic updates are on.
pub fn background_decision(found_version: &str, dismissed: &Option<String>, auto_update: bool) -> (r: BackgroundDecision)
    ensures
        r.clear_dismissed == (!is_dismissed(found_version@, *dismissed) && dismissed is Some),
        r.install == (auto_update && !is_dismissed(found_version@, *dismissed)),
{
    let skipped = match dismissed {
        Some(d) => str_equal(d.as_str(), found_version),
        None => false,
    };
    BackgroundDecision { clear_dismissed: !skipped && dismissed.is_some(), install: auto_update && !skipped }
}

/// How long the running program's file must stay unchanged after a change
/// before the program restarts itself.
pub const DEBOUNCE_MS: u64 = 500;

/// Waits for changes to the running program's file to settle.
pub struct ChangeDebounce {
    changed_at: Option<u64>,
}

impl ChangeDebounce {
    /// The time, in milliseconds, of the last change not yet acted on.
    pub closed spec fn pending(&self) -> Option<u64> {
        self.changed_at
    }

    /// No change seen yet.
    pub fn new() -> (r: Self)
        ensures
            r.pending() is None,
    {
        ChangeDebounce { changed_at: None }
    }

    /// One poll at time `now_ms`, told whether the file changed since the last
    /// poll. It fires once the last change is at least `DEBOUNCE_MS` old, and
    /// then forgets it.
    pub fn poll(&mut self, saw_change: bool, now_ms: u64) -> (fired: bool)
        ensures
            ({
                let last = if saw_change {
                    Some(now_ms)
                } else {
                    old(self).pending()
                };
                match last {
                    None => !fired && final(self).pending() is None,
                    Some(t) => if now_ms >= t && now_ms - t >= DEBOUNCE_MS {
                        fired && final(self).pending() is None
                    } else {
                        !fired && final(self).pending() == Some(t)
                    },
                }
            }),
    {
        if saw_change {
            self.changed_at = Some(now_ms);
        }
        match self.changed_at {
            Some(t) => {
                if now_ms >= t && now_ms - t >= DEBOUNCE_MS {
                    self.changed_at = None;
                    true
                } else {
                    false
                }
            },
            None => false,
        }
    }
}

/// Whether a settled change of the program's file restarts the program: only
/// when no install of ours is running.
pub fn restart_on_change(state: &UpdateState) -> (r: bool)
    ensures
        r == !state.update_in_progress,
{
    !state.update_in_progress
}

// ---------------------------------------------------------------------------
// What the user sees
// ---------------------------------------------------------------------------

/// The phase of the update process as the interface tracks it; `Unset` is
/// the settings panel's state before any news.
#[derive(Debug, PartialEq, Eq, Structural, Clone, Copy)]
pub enum UpdatePhase {
    Unset,
    Idle,
    Checking,
    Available,
    Downloading,
    Installing,
    Ready,
    Error,
}

/// The phase that a status without detail names.
pub open spec fn plain_phase(s: UpdateStatus) -> Option<UpdatePhase> {
    match s {
        UpdateStatus::Idle => Some(UpdatePhase::Idle),
        UpdateStatus::Checking => Some(UpdatePhase::Checking),
        UpdateStatus::Downloading => Some(UpdatePhase::Downloading),
        UpdateStatus::Installing => Some(UpdatePhase::Installing),
        UpdateStatus::Ready => Some(UpdatePhase::Ready),
        _ => None,
    }
}

fn plain_phase_of(s: &UpdateStatus) -> (r: Option<UpdatePhase>)
    ensures
        r == plain_phase(*s),
{
    match s {
        UpdateStatus::Idle => Some(UpdatePhase::Idle),
        UpdateStatus::Checking => Some(UpdatePhase::Checking),
        UpdateStatus::Downloading => Some(UpdatePhase::Downloading),
        UpdateStatus::Installing => Some(UpdatePhase::Installing),
        UpdateStatus::Ready => Some(UpdatePhase::Ready),
        _ => None,
    }
}

/// The update banner of the toolbar.
#[derive(Debug)]
pub struct UpdateBanner {
    pub phase: UpdatePhase,
    pub version: Option<String>,
}

/// The words of the banner in a phase, with the offered version `v`.
pub open spec fn banner_words(phase: UpdatePhase, v: Seq<char>) -> Option<Seq<char>> {
    match phase {
        UpdatePhase::Available => Some("v"@ + v + " available"@),
        UpdatePhase::Downloading => Some("Downloading..."@),
        UpdatePhase::Installing => Some("Installing..."@),
        UpdatePhase::Ready => Some("Update ready"@),
        UpdatePhase::Error => Some("Update failed"@),
        _ => None,
    }
}

impl UpdateBanner {
    /// Nothing to show: idle, no version known.
    pub fn new() -> (r: Self)
        ensures
            r.phase == UpdatePhase::Idle,
            r.version is None,
    {
        UpdateBanner { phase: UpdatePhase::Idle, version: None }
    }

    /// An `update-status` event arrived.
    pub fn on_status(&mut self, status: &UpdateStatus)
        ensures
            match *status {
                UpdateStatus::Available { version } => final(self).phase == UpdatePhase::Available
                    && final(self).version == Some(version),
                UpdateStatus::Error(_) => final(self).phase == UpdatePhase::Error
                    && final(self).version == old(self).version,
                _ => Some(final(self).phase) == plain_phase(*status) && final(self).version == old(self).version,
            },
    {
        match status {
            UpdateStatus::Available { version } => {
                self.version = Some(version.clone());
                self.phase = UpdatePhase::Available;
            },
            UpdateStatus::Error(_) => {
                self.phase = UpdatePhase::Error;
            },
            _ => {
                if let Some(p) = plain_phase_of(status) {
                    self.phase = p;
                }
            },
        }
    }

    /// The user dismissed the offer.
    pub fn dismiss(&mut self)
        ensures
            final(self).phase == UpdatePhase::Idle,
            final(self).version is None,
    {
        self.phase = UpdatePhase::Idle;
        self.version = None;
    }

    /// Whether the banner shows: in every phase but idle and checking.
    pub fn visible(&self) -> (r: bool)
        ensures
            r == (self.phase != UpdatePhase::Idle && self.phase != UpdatePhase::Checking),
    {
        self.phase != UpdatePhase::Idle && self.phase != UpdatePhase::Checking
    }

    /// The words the banner shows, if any.
    pub fn text(&self) -> (r: Option<String>)
        ensures
            match banner_words(
                self.phase,
                match self.version {
                    Some(v) => v@,
                    None => Seq::<char>::empty(),
                },
            ) {
                None => r is None,
                Some(w) => r matches Some(t) && t@ == w,
            },
    {
        match self.phase {
            UpdatePhase::Available => {
                let v = match &self.version {
                    Some(v) => v.clone(),
                    None => String::new(),
                };
                let head = concat("v", v.as_str());
                Some(concat(head.as_str(), " available"))
            },
            UpdatePhase::Downloading => Some(String::from_str("Downloading...")),
            UpdatePhase::Installing => Some(String::from_str("Installing...")),
            UpdatePhase::Ready => Some(String::from_str("Update ready")),
            UpdatePhase::Error => Some(String::from_str("Update failed")),
            _ => None,
        }
    }
}

/// The "Updates" settings panel: the line that reports on the last check,
/// the phase that decides which button shows, and the version on offer.
#[derive(Debug)]
pub struct UpdatePanel {
    pub check_result: Option<String>,
    pub phase: UpdatePhase,
    pub available_version: Option<String>,
}

impl UpdatePanel {
    /// Nothing reported yet.
    pub fn new() -> (r: Self)
        ensures
            r.check_result is None,
            r.phase == UpdatePhase::Unset,
            r.available_version is None,
    {
        UpdatePanel { check_result: None, phase: UpdatePhase::Unset, available_version: None }
    }

    /// An `update-status` event arrived. A status without detail becomes the
    /// phase, and downloading and ready are reported; an error is reported
    /// with its message; an offer by event changes nothing here.
    pub fn on_status(&mut self, status: &UpdateStatus)
        ensures
            final(self).available_version == old(self).available_version,
            match *status {
                UpdateStatus::Available { .. } => *final(self) == *old(self),
                UpdateStatus::Error(msg) => {
                    &&& final(self).phase == UpdatePhase::Error
                    &&& final(self).check_result matches Some(t) && t@ == "Error: "@ + msg@
                },
                UpdateStatus::Downloading => {
                    &&& final(self).phase == UpdatePhase::Downloading
                    &&& final(self).check_result matches Some(t) && t@ == "Downloading..."@
                },
                UpdateStatus::Ready => {
                    &&& final(self).phase == UpdatePhase::Ready
                    &&& final(self).check_result matches Some(t) && t@
                        == "Update ready \u{2014} restart to apply."@
                },
                _ => Some(final(self).phase) == plain_phase(*status) && final(self).check_result
                    == old(self).check_result,
            },
    {
        match status {
            UpdateStatus::Available { .. } => {},
            UpdateStatus::Error(msg) => {
                self.phase = UpdatePhase::Error;
                self.check_result = Some(concat("Error: ", msg.as_str()));
            },
            UpdateStatus::Downloading => {
                self.phase = UpdatePhase::Downloading;
                self.check_result = Some(String::from_str("Downloading..."));
            },
            UpdateStatus::Ready => {
                self.phase = UpdatePhase::Ready;
                self.check_result = Some(String::from_str("Update ready \u{2014} restart to apply."));
            },
            _ => {
                if let Some(p) = plain_phase_of(status) {
                    self.phase = p;
                }
            },
        }
    }

    /// The user asked for a check.
    pub fn begin_check(&mut self)
        ensures
            final(self).check_result matches Some(t) && t@ == "Checking..."@,
            final(self).available_version is None,
            final(self).phase == UpdatePhase::Unset,
    {
        self.check_result = Some(String::from_str("Checking..."));
        self.available_version = None;
        self.phase = UpdatePhase::Unset;
    }

    /// The check answered: the version on offer, none, or an error.
    pub fn finish_check(&mut self, answer: Result<Option<String>, String>)
        ensures
            match answer {
                Ok(Some(v)) => {
                    &&& final(self).check_result matches Some(t) && t@ == "v"@ + v@ + " available!"@
                    &&& final(self).available_version == Some(v)
                    &&& final(self).phase == UpdatePhase::Available
                },
                Ok(None) => {
                    &&& final(self).check_result matches Some(t) && t@ == "You're up to date."@
                    &&& final(self).available_version == old(self).available_version
                    &&& final(self).phase == old(self).phase
                },
                Err(e) => {
                    &&& final(self).check_result matches Some(t) && t@ == "Error: "@ + e@
                    &&& final(self).available_version == old(self).available_version
                    &&& final(self).phase == old(self).phase
                },
            },
    {
        match answer {
            Ok(Some(v)) => {
                let head = concat("v", v.as_str());
                self.check_result = Some(concat(head.as_str(), " available!"));
                self.available_version = Some(v);
                self.phase = UpdatePhase::Available;
            },
            Ok(None) => {
                self.check_result = Some(String::from_str("You're up to date."));
            },
            Err(e) => {
                self.check_result = Some(concat("Error: ", e.as_str()));
            },
        }
    }

    /// The user asked to install; `failure` is the error the request gave.
    pub fn request_install(&mut self, failure: Option<String>)
        ensures
            final(self).available_version is None,
            final(self).phase == old(self).phase,
            match failure {
                None => final(self).check_result == old(self).check_result,
                Some(e) => final(self).check_result matches Some(t) && t@ == "Error: "@ + e@,
            },
    {
        self.available_version = None;
        if let Some(e) = failure {
            self.check_result = Some(concat("Error: ", e.as_str()));
        }
    }

    /// Whether the "Update" button shows.
    pub fn shows_update_button(&self) -> (r: bool)
        ensures
            r == (self.phase == UpdatePhase::Available),
    {
        self.phase == UpdatePhase::Available
    }

    /// Whether the "Restart" button shows.
    pub fn shows_restart_button(&self) -> (r: bool)
        ensures
            r == (self.phase == UpdatePhase::Ready),
    {
        self.phase == UpdatePhase::Ready
    }
}

} // verus!
