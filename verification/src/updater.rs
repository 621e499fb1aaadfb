//! In-place self-update from GitHub Releases.
//!
//! The latest release of the repository is compared with the running build. If
//! it is newer, its `.exe` asset is offered, downloaded and swapped in for the
//! running executable; a restart then runs the new build. This module decides
//! all of it: which release is newer, which asset belongs to it, what the
//! status shows and what the `--update` flag prints.

use vstd::prelude::*;
use crate::cli;
use crate::cli::{fail, succeed, CliOutcome};
use crate::config::AppSettings;
use crate::json;
use crate::json::{json_member, parse_json, JsonTree};
use crate::text;
use crate::text::{
    chars_of, ends_with, joined, leading_run, parse_number, slice_of, strip_v, text_of, CharClass,
};

verus! {

/// `owner/name` of the GitHub repository releases are published to.
pub const REPO: &'static str = "ChrisPrefect/OpenLogi";

/// State of the update flow, as the About window shows it.
#[derive(Debug)]
pub enum UpdateStatus {
    /// Nothing has been asked for yet.
    Idle,
    /// A query is under way.
    Checking,
    /// The running build is the latest.
    UpToDate,
    /// A newer version is available (the string is its version).
    Available(String),
    /// Download and install in progress.
    Installing,
    /// The new version is staged on disk; a restart will run it.
    Staged(String),
    /// The last step failed, with its message.
    Errored(String),
}

/// The view of an [`UpdateStatus`].
pub enum StatusView {
    /// Nothing has been asked for yet.
    Idle,
    /// A query is under way.
    Checking,
    /// The running build is the latest.
    UpToDate,
    /// A newer version is available.
    Available(Seq<char>),
    /// Download and install in progress.
    Installing,
    /// The new version is staged on disk.
    Staged(Seq<char>),
    /// The last step failed.
    Errored(Seq<char>),
}

impl View for UpdateStatus {
    type V = StatusView;

    open spec fn view(&self) -> StatusView {
        match self {
            UpdateStatus::Idle => StatusView::Idle,
            UpdateStatus::Checking => StatusView::Checking,
            UpdateStatus::UpToDate => StatusView::UpToDate,
            UpdateStatus::Available(v) => StatusView::Available(v@),
            UpdateStatus::Installing => StatusView::Installing,
            UpdateStatus::Staged(v) => StatusView::Staged(v@),
            UpdateStatus::Errored(e) => StatusView::Errored(e@),
        }
    }
}

impl Clone for UpdateStatus {
    fn clone(&self) -> (r: Self)
        ensures
            r@ == self@,
    {
        match self {
            UpdateStatus::Idle => UpdateStatus::Idle,
            UpdateStatus::Checking => UpdateStatus::Checking,
            UpdateStatus::UpToDate => UpdateStatus::UpToDate,
            UpdateStatus::Available(v) => UpdateStatus::Available(v.clone()),
            UpdateStatus::Installing => UpdateStatus::Installing,
            UpdateStatus::Staged(v) => UpdateStatus::Staged(v.clone()),
            UpdateStatus::Errored(e) => UpdateStatus::Errored(e.clone()),
        }
    }
}

impl Default for UpdateStatus {
    fn default() -> (r: Self)
        ensures
            r@ == StatusView::Idle,
    {
        UpdateStatus::Idle
    }
}

/// A newer release found on GitHub.
#[derive(Debug)]
pub struct Release {
    /// Its version, without a leading `v`.
    pub version: String,
    /// Where its executable can be downloaded.
    pub asset_url: String,
}

/// The view of a [`Release`].
pub struct ReleaseView {
    /// Its version.
    pub version: Seq<char>,
    /// Where its executable can be downloaded.
    pub asset_url: Seq<char>,
}

impl View for Release {
    type V = ReleaseView;

    open spec fn view(&self) -> ReleaseView {
        ReleaseView { version: self.version@, asset_url: self.asset_url@ }
    }
}

impl Clone for Release {
    fn clone(&self) -> (r: Self)
        ensures
            r@ == self@,
    {
        Release { version: self.version.clone(), asset_url: self.asset_url.clone() }
    }
}

/// The view of an optional release.
pub open spec fn release_view(r: Option<Release>) -> Option<ReleaseView> {
    match r {
        Some(release) => Some(release@),
        None => None,
    }
}

/// The view of the outcome of an update check.
pub open spec fn check_view(r: Result<Option<Release>, String>) -> Result<
    Option<ReleaseView>,
    Seq<char>,
> {
    match r {
        Ok(found) => Ok(release_view(found)),
        Err(e) => Err(e@),
    }
}

// ---------------------------------------------------------------------------
// Versions
// ---------------------------------------------------------------------------

/// The part of a version that counts: no leading `v`, no pre-release or build
/// suffix.
pub open spec fn version_core(v: Seq<char>) -> Seq<char> {
    let w = text::without_v(v);
    w.take(text::leading(w, CharClass::Core) as int)
}

/// The numbers among the dot-separated parts of `s`, in order.
pub open spec fn numeric_parts(s: Seq<char>) -> Seq<nat>
    decreases s.len(),
{
    let n = text::leading(s, CharClass::Part) as int;
    let head = match text::number_of(s.take(n), u64::MAX as nat) {
        Some(k) => seq![k],
        None => Seq::empty(),
    };
    if 0 <= n < s.len() {
        head + numeric_parts(s.skip(n + 1))
    } else {
        head
    }
}

/// The number at position `i`, zero where it is missing.
pub open spec fn part_or_zero(parts: Seq<nat>, i: int) -> nat {
    if 0 <= i < parts.len() {
        parts[i]
    } else {
        0
    }
}

/// The version that `v` writes: the first three numbers of its core.
pub open spec fn version_of(v: Seq<char>) -> (nat, nat, nat) {
    let parts = numeric_parts(version_core(v));
    (part_or_zero(parts, 0), part_or_zero(parts, 1), part_or_zero(parts, 2))
}

/// Versions compare part by part, the most significant first.
pub open spec fn version_le(a: (nat, nat, nat), b: (nat, nat, nat)) -> bool {
    a.0 < b.0 || (a.0 == b.0 && (a.1 < b.1 || (a.1 == b.1 && a.2 <= b.2)))
}

/// Collects the numbers among the dot-separated parts.
fn collect_parts(core: Vec<char>) -> (r: Vec<u64>)
    ensures
        r@.map_values(|x: u64| x as nat) == numeric_parts(core@),
{
    let ghost whole = core@;
    let mut rest: Vec<char> = core;
    let mut acc: Vec<u64> = Vec::new();
    assert(acc@.map_values(|x: u64| x as nat) =~= Seq::<nat>::empty());
    loop
        invariant
            whole == core@,
            numeric_parts(whole) == acc@.map_values(|x: u64| x as nat) + numeric_parts(rest@),
        decreases rest.len(),
    {
        let n: usize = leading_run(&rest, CharClass::Part);
        let head = slice_of(&rest, 0, n);
        assert(head@ =~= rest@.take(n as int));
        let ghost before = acc@;
        match parse_number(&head, u64::MAX) {
            Some(k) => {
                acc.push(k);
                assert(acc@.map_values(|x: u64| x as nat) =~= before.map_values(|x: u64| x as nat)
                    + seq![k as nat]);
            },
            None => {},
        }
        if n == rest.len() {
            assert(numeric_parts(whole) =~= acc@.map_values(|x: u64| x as nat));
            return acc;
        }
        let next = slice_of(&rest, n + 1, rest.len());
        assert(next@ =~= rest@.skip(n + 1));
        assert(numeric_parts(whole) =~= acc@.map_values(|x: u64| x as nat) + numeric_parts(next@));
        rest = next;
    }
}

/// Parses a `"x.y.z"` version into a comparable tuple. Missing parts are 0;
/// pre-release and build suffixes are ignored.
pub fn parse_version(v: &str) -> (r: (u64, u64, u64))
    ensures
        (r.0 as nat, r.1 as nat, r.2 as nat) == version_of(v@),
{
    let w = strip_v(&chars_of(v));
    let n: usize = leading_run(&w, CharClass::Core);
    let core = slice_of(&w, 0, n);
    assert(core@ =~= version_core(v@));
    let parts = collect_parts(core);
    let ghost nats = parts@.map_values(|x: u64| x as nat);
    let major: u64 = if parts.len() > 0 {
        assert(nats[0] == parts@[0]);
        parts[0]
    } else {
        0
    };
    let minor: u64 = if parts.len() > 1 {
        assert(nats[1] == parts@[1]);
        parts[1]
    } else {
        0
    };
    let patch: u64 = if parts.len() > 2 {
        assert(nats[2] == parts@[2]);
        parts[2]
    } else {
        0
    };
    (major, minor, patch)
}

/// Decides whether `a` is the same version as `b` or an older one.
pub fn version_at_most(a: (u64, u64, u64), b: (u64, u64, u64)) -> (r: bool)
    ensures
        r == version_le(
            (a.0 as nat, a.1 as nat, a.2 as nat),
            (b.0 as nat, b.1 as nat, b.2 as nat),
        ),
{
    a.0 < b.0 || (a.0 == b.0 && (a.1 < b.1 || (a.1 == b.1 && a.2 <= b.2)))
}

// ---------------------------------------------------------------------------
// The release document
// ---------------------------------------------------------------------------

/// One downloadable file of a release, as far as the document says.
#[derive(Debug)]
pub struct ReleaseAsset {
    /// Its `name`, when that is a string.
    pub name: Option<String>,
    /// Its `browser_download_url`, when that is a string.
    pub url: Option<String>,
}

/// The view of a [`ReleaseAsset`].
pub struct AssetView {
    /// Its name.
    pub name: Option<Seq<char>>,
    /// Its download address.
    pub url: Option<Seq<char>>,
}

impl View for ReleaseAsset {
    type V = AssetView;

    open spec fn view(&self) -> AssetView {
        AssetView { name: text::text_view(self.name), url: text::text_view(self.url) }
    }
}

/// What the update check reads of the release document.
#[derive(Debug)]
pub struct ReleaseDocument {
    /// Its `tag_name`, when that is a string.
    pub tag_name: Option<String>,
    /// Its `assets`, when that is an array.
    pub assets: Option<Vec<ReleaseAsset>>,
}

/// The view of a [`ReleaseDocument`].
pub struct DocumentView {
    /// The tag of the release.
    pub tag_name: Option<Seq<char>>,
    /// The files of the release, in order.
    pub assets: Option<Seq<AssetView>>,
}

impl View for ReleaseDocument {
    type V = DocumentView;

    open spec fn view(&self) -> DocumentView {
        DocumentView {
            tag_name: text::text_view(self.tag_name),
            assets: match self.assets {
                Some(assets) => Some(assets@.map_values(|a: ReleaseAsset| a@)),
                None => None,
            },
        }
    }
}

/// The asset that `tree` describes.
pub open spec fn asset_of(tree: JsonTree) -> AssetView {
    AssetView {
        name: json::text(json::member(tree, "name"@)),
        url: json::text(json::member(tree, "browser_download_url"@)),
    }
}

/// The release document that `tree` describes.
pub open spec fn document_of(tree: JsonTree) -> DocumentView {
    DocumentView {
        tag_name: json::text(json::member(tree, "tag_name"@)),
        assets: match json::items(json::member(tree, "assets"@)) {
            Some(list) => Some(list.map_values(|a: JsonTree| asset_of(a))),
            None => None,
        },
    }
}

/// Whether the asset is an executable.
pub open spec fn is_executable(asset: AssetView) -> bool {
    asset.name matches Some(n) && ".exe"@.is_suffix_of(n)
}

/// The first executable among the assets.
pub open spec fn first_executable(assets: Seq<AssetView>) -> Option<AssetView>
    decreases assets.len(),
{
    if assets.len() == 0 {
        None
    } else if is_executable(assets[0]) {
        Some(assets[0])
    } else {
        first_executable(assets.drop_first())
    }
}

/// Where the executable of the release can be downloaded: the address of the
/// first executable asset.
pub open spec fn download_url(doc: DocumentView) -> Option<Seq<char>> {
    match doc.assets {
        Some(assets) => match first_executable(assets) {
            Some(asset) => asset.url,
            None => None,
        },
        None => None,
    }
}

/// The outcome of comparing the release that `doc` describes with the build
/// `current`: the release when it is newer, or why it cannot be told or had.
pub open spec fn newer_release(doc: DocumentView, current: Seq<char>) -> Result<
    Option<ReleaseView>,
    Seq<char>,
> {
    match doc.tag_name {
        None => Err("release has no tag_name"@),
        Some(tag) => if version_le(version_of(tag), version_of(current)) {
            Ok(None)
        } else {
            match download_url(doc) {
                Some(url) => Ok(
                    Some(ReleaseView { version: text::without_v(tag), asset_url: url }),
                ),
                None => Err("latest release has no .exe asset"@),
            }
        },
    }
}

/// Copies the text of a JSON string.
fn owned_text(value: &serde_json::Value) -> (r: Option<String>)
    ensures
        text::text_view(r) == json::text(json::json_tree(*value)),
{
    match value.as_str() {
        Some(s) => Some(s.to_owned()),
        None => None,
    }
}

/// Reads one entry of the asset list.
fn read_asset(value: &serde_json::Value) -> (r: ReleaseAsset)
    ensures
        r@ == asset_of(json::json_tree(*value)),
{
    ReleaseAsset {
        name: owned_text(json_member(value, "name")),
        url: owned_text(json_member(value, "browser_download_url")),
    }
}

/// Reads what the update check needs out of a parsed document.
pub fn read_document(value: &serde_json::Value) -> (r: ReleaseDocument)
    ensures
        r@ == document_of(json::json_tree(*value)),
{
    let tag_name = owned_text(json_member(value, "tag_name"));
    let assets = match json_member(value, "assets").as_array() {
        None => None,
        Some(list) => {
            let ghost trees = list@.map_values(|x: serde_json::Value| json::json_tree(x));
            let mut out: Vec<ReleaseAsset> = Vec::new();
            for i in 0..list.len()
                invariant
                    trees == list@.map_values(|x: serde_json::Value| json::json_tree(x)),
                    out.len() == i,
                    forall|j: int| 0 <= j < i ==> (#[trigger] out@[j])@ == asset_of(trees[j]),
            {
                out.push(read_asset(&list[i]));
            }
            assert(out@.map_values(|a: ReleaseAsset| a@) =~= trees.map_values(
                |a: JsonTree| asset_of(a),
            ));
            Some(out)
        },
    };
    ReleaseDocument { tag_name, assets }
}

/// Finds the download address of the release's executable.
fn find_download(doc: &ReleaseDocument) -> (r: Option<String>)
    ensures
        text::text_view(r) == download_url(doc@),
{
    let assets = match &doc.assets {
        Some(assets) => assets,
        None => {
            return None;
        },
    };
    let ghost views = assets@.map_values(|a: ReleaseAsset| a@);
    assert(views.skip(0) =~= views);
    for i in 0..assets.len()
        invariant
            views == assets@.map_values(|a: ReleaseAsset| a@),
            doc@.assets == Some(views),
            first_executable(views) == first_executable(views.skip(i as int)),
    {
        let asset = &assets[i];
        let ghost rest = views.skip(i as int);
        assert(rest[0] == asset@);
        assert(rest.drop_first() =~= views.skip(i + 1));
        let executable = match &asset.name {
            Some(name) => ends_with(&chars_of(name.as_str()), ".exe"),
            None => false,
        };
        if executable {
            return match &asset.url {
                Some(url) => Some(url.clone()),
                None => None,
            };
        }
    }
    assert(views.skip(assets.len() as int).len() == 0);
    None
}

/// Compares the release that `doc` describes with the build `current`: `Some`
/// when it is newer.
pub fn pick_release(doc: &ReleaseDocument, current: &str) -> (r: Result<Option<Release>, String>)
    ensures
        check_view(r) == newer_release(doc@, current@),
{
    let tag = match &doc.tag_name {
        Some(tag) => tag,
        None => {
            return Err("release has no tag_name".to_owned());
        },
    };
    if version_at_most(parse_version(tag.as_str()), parse_version(current)) {
        return Ok(None);
    }
    match find_download(doc) {
        Some(asset_url) => {
            let version = text_of(&strip_v(&chars_of(tag.as_str())));
            Ok(Some(Release { version, asset_url }))
        },
        None => Err("latest release has no .exe asset".to_owned()),
    }
}

/// What came back of the request for the release document.
#[derive(Debug)]
pub enum Fetched {
    /// The request failed, with the error.
    RequestFailed(String),
    /// The body could not be read, with the error.
    ReadFailed(String),
    /// The body.
    Body(Vec<u8>),
}

/// The outcome of an update check, given what came back of the request.
pub open spec fn fetch_outcome(fetched: Fetched, current: Seq<char>) -> Result<
    Option<ReleaseView>,
    Seq<char>,
> {
    match fetched {
        Fetched::RequestFailed(e) => Err("request failed: "@ + e@),
        Fetched::ReadFailed(e) => Err("read failed: "@ + e@),
        Fetched::Body(bytes) => match json::json_document(bytes@) {
            Ok(tree) => newer_release(document_of(tree), current),
            Err(e) => Err("parse failed: "@ + e),
        },
    }
}

/// The address that answers with the latest release.
pub fn latest_release_url() -> (r: String)
    ensures
        r@ == "https://api.github.com/repos/"@ + REPO@ + "/releases/latest"@,
{
    let mut s = joined("https://api.github.com/repos/", REPO);
    s.append("/releases/latest");
    s
}

/// Concludes the query for the latest release; `Some` when it is newer than the
/// build `current`.
pub fn fetch_latest(fetched: &Fetched, current: &str) -> (r: Result<Option<Release>, String>)
    ensures
        check_view(r) == fetch_outcome(*fetched, current@),
{
    match fetched {
        Fetched::RequestFailed(e) => Err(joined("request failed: ", e.as_str())),
        Fetched::ReadFailed(e) => Err(joined("read failed: ", e.as_str())),
        Fetched::Body(bytes) => match parse_json(bytes.as_slice()) {
            Ok(value) => pick_release(&read_document(&value), current),
            Err(e) => Err(joined("parse failed: ", e.as_str())),
        },
    }
}

// ---------------------------------------------------------------------------
// The update flow
// ---------------------------------------------------------------------------

/// The update state and the release that waits to be installed.
#[derive(Debug)]
pub struct Updater {
    status: UpdateStatus,
    pending: Option<Release>,
}

/// The view of an [`Updater`].
pub struct UpdaterView {
    /// What the About window shows.
    pub status: StatusView,
    /// The release that waits to be installed.
    pub pending: Option<ReleaseView>,
}

impl View for Updater {
    type V = UpdaterView;

    closed spec fn view(&self) -> UpdaterView {
        UpdaterView { status: self.status@, pending: release_view(self.pending) }
    }
}

/// Whether a query or an installation is under way.
pub open spec fn busy(status: StatusView) -> bool {
    status is Checking || status is Installing
}

/// The state after a check was asked for: a busy updater is left alone.
pub open spec fn check_started(u: UpdaterView) -> UpdaterView {
    if busy(u.status) {
        u
    } else {
        UpdaterView { status: StatusView::Checking, ..u }
    }
}

/// The state after a check came back with `outcome`. Only a release that was
/// found replaces the one that waits.
pub open spec fn check_concluded(
    u: UpdaterView,
    outcome: Result<Option<ReleaseView>, Seq<char>>,
) -> UpdaterView {
    match outcome {
        Ok(Some(release)) => UpdaterView {
            status: StatusView::Available(release.version),
            pending: Some(release),
        },
        Ok(None) => UpdaterView { status: StatusView::UpToDate, ..u },
        Err(e) => UpdaterView { status: StatusView::Errored(e), ..u },
    }
}

/// The state after an installation was asked for: nothing happens without a
/// release that waits.
pub open spec fn install_started(u: UpdaterView) -> UpdaterView {
    if u.pending is Some {
        UpdaterView { status: StatusView::Installing, ..u }
    } else {
        u
    }
}

/// The state after the installation of `version` came back with `outcome`.
pub open spec fn install_concluded(
    u: UpdaterView,
    version: Seq<char>,
    outcome: Result<(), Seq<char>>,
) -> UpdaterView {
    match outcome {
        Ok(()) => UpdaterView { status: StatusView::Staged(version), ..u },
        Err(e) => UpdaterView { status: StatusView::Errored(e), ..u },
    }
}

/// The view of the outcome of an installation.
pub open spec fn install_view(r: Result<(), String>) -> Result<(), Seq<char>> {
    match r {
        Ok(()) => Ok(()),
        Err(e) => Err(e@),
    }
}

impl Updater {
    /// The status that the About window shows.
    #[must_use]
    pub fn status(&self) -> (r: &UpdateStatus)
        ensures
            r@ == self@.status,
    {
        &self.status
    }

    /// Asks for a check. Returns whether a query has to be made now; a busy
    /// updater ignores the request.
    pub fn check(&mut self) -> (r: bool)
        ensures
            r == !busy(old(self)@.status),
            final(self)@ == check_started(old(self)@),
    {
        match self.status {
            UpdateStatus::Checking => false,
            UpdateStatus::Installing => false,
            _ => {
                self.status = UpdateStatus::Checking;
                true
            },
        }
    }

    /// Takes in what the query found.
    pub fn conclude_check(&mut self, outcome: Result<Option<Release>, String>)
        ensures
            final(self)@ == check_concluded(old(self)@, check_view(outcome)),
    {
        match outcome {
            Ok(Some(release)) => {
                self.status = UpdateStatus::Available(release.version.clone());
                self.pending = Some(release);
            },
            Ok(None) => {
                self.status = UpdateStatus::UpToDate;
            },
            Err(e) => {
                self.status = UpdateStatus::Errored(e);
            },
        }
    }

    /// Asks for the installation of the release that waits. Returns the release
    /// to download; without one nothing happens.
    pub fn download_and_install(&mut self) -> (r: Option<Release>)
        ensures
            release_view(r) == old(self)@.pending,
            final(self)@ == install_started(old(self)@),
    {
        let release = match &self.pending {
            Some(release) => release.clone(),
            None => {
                return None;
            },
        };
        self.status = UpdateStatus::Installing;
        Some(release)
    }

    /// Takes in how the installation of `version` went.
    pub fn conclude_install(&mut self, version: String, outcome: Result<(), String>)
        ensures
            final(self)@ == install_concluded(old(self)@, version@, install_view(outcome)),
    {
        match outcome {
            Ok(()) => {
                self.status = UpdateStatus::Staged(version);
            },
            Err(e) => {
                self.status = UpdateStatus::Errored(e);
            },
        }
    }
}

/// Builds a fresh updater in the `Idle` state.
pub fn new_entity() -> (r: Updater)
    ensures
        r@ == (UpdaterView { status: StatusView::Idle, pending: None }),
{
    Updater { status: UpdateStatus::Idle, pending: None }
}

/// The updater that is published on launch, and whether it queries right away:
/// only when the user opted in.
pub fn install(settings: &AppSettings) -> (r: (Updater, bool))
    ensures
        r.1 == settings.check_for_updates,
        r.0@ == (UpdaterView {
            status: if settings.check_for_updates {
                StatusView::Checking
            } else {
                StatusView::Idle
            },
            pending: None,
        }),
{
    let mut updater = new_entity();
    if settings.check_for_updates {
        let query = updater.check();
        (updater, query)
    } else {
        (updater, false)
    }
}

// ---------------------------------------------------------------------------
// Download, restart and the command line
// ---------------------------------------------------------------------------

/// The steps in which an installation can fail.
#[derive(Clone, Copy, Debug, PartialEq, Eq, Structural)]
pub enum InstallStep {
    /// Requesting the asset.
    Download,
    /// Finding the running executable.
    CurrentExe,
    /// Creating the file beside it.
    CreateTemp,
    /// Filling that file.
    WriteTemp,
    /// Swapping the two.
    Replace,
}

/// What is said of a failure in `step` ahead of the error itself.
pub open spec fn step_prefix(step: InstallStep) -> Seq<char> {
    match step {
        InstallStep::Download => "download failed: "@,
        InstallStep::CurrentExe => "current_exe: "@,
        InstallStep::CreateTemp => "create temp: "@,
        InstallStep::WriteTemp => "write temp: "@,
        InstallStep::Replace => "replace: "@,
    }
}

/// The message for a failure in `step` with the given error.
pub fn install_error(step: InstallStep, error: &str) -> (r: String)
    ensures
        r@ == step_prefix(step) + error@,
{
    match step {
        InstallStep::Download => joined("download failed: ", error),
        InstallStep::CurrentExe => joined("current_exe: ", error),
        InstallStep::CreateTemp => joined("create temp: ", error),
        InstallStep::WriteTemp => joined("write temp: ", error),
        InstallStep::Replace => joined("replace: ", error),
    }
}

/// The shell command that relaunches `exe` after a short delay, so that this
/// instance can exit first.
pub fn relaunch_command(exe: &str) -> (r: String)
    ensures
        r@ == "ping 127.0.0.1 -n 2 >nul & start \"\" \""@ + exe@ + "\""@,
{
    let mut s = joined("ping 127.0.0.1 -n 2 >nul & start \"\" \"", exe);
    s.append("\"");
    s
}

/// How the `--update` flag goes on after the check.
#[derive(Debug)]
pub enum CliUpdate {
    /// There is nothing to install.
    Exit(CliOutcome),
    /// Announce the update, then download this release.
    Download {
        /// The line to print first.
        announce: String,
        /// The release to install.
        release: Release,
    },
}

/// The view of a [`CliUpdate`].
pub enum CliUpdateView {
    /// There is nothing to install.
    Exit(cli::CliOutcomeView),
    /// Announce the update, then download this release.
    Download(Seq<char>, ReleaseView),
}

impl View for CliUpdate {
    type V = CliUpdateView;

    open spec fn view(&self) -> CliUpdateView {
        match self {
            CliUpdate::Exit(outcome) => CliUpdateView::Exit(outcome@),
            CliUpdate::Download { announce, release } => CliUpdateView::Download(
                announce@,
                release@,
            ),
        }
    }
}

/// The headless update after its check came back with `outcome`, for the build
/// `current`. Backs the `--update` flag.
pub fn run_cli_update(outcome: Result<Option<Release>, String>, current: &str) -> (r: CliUpdate)
    ensures
        r@ == match check_view(outcome) {
            Ok(None) => CliUpdateView::Exit(
                cli::success("OpenLogi is up to date (v"@ + current@ + ")."@),
            ),
            Ok(Some(release)) => CliUpdateView::Download(
                "Updating to v"@ + release.version + "…"@,
                release,
            ),
            Err(e) => CliUpdateView::Exit(cli::failure(1, "Update check failed: "@ + e)),
        },
{
    match outcome {
        Ok(None) => {
            let mut s = joined("OpenLogi is up to date (v", current);
            s.append(").");
            CliUpdate::Exit(succeed(s))
        },
        Ok(Some(release)) => {
            let mut announce = joined("Updating to v", release.version.as_str());
            announce.append("…");
            CliUpdate::Download { announce, release }
        },
        Err(e) => CliUpdate::Exit(fail(1, joined("Update check failed: ", e.as_str()))),
    }
}

/// The end of the headless update, after the installation of `version` came
/// back with `outcome`.
pub fn conclude_cli_update(version: &str, outcome: Result<(), String>) -> (r: CliOutcome)
    ensures
        r@ == match install_view(outcome) {
            Ok(()) => cli::success(
                "Updated to v"@ + version@ + ". Restart OpenLogi to run it."@,
            ),
            Err(e) => cli::failure(1, "Update failed: "@ + e),
        },
{
    match outcome {
        Ok(()) => {
            let mut s = joined("Updated to v", version);
            s.append(". Restart OpenLogi to run it.");
            succeed(s)
        },
        Err(e) => fail(1, joined("Update failed: ", e.as_str())),
    }
}

// ---------------------------------------------------------------------------
// Laws
// ---------------------------------------------------------------------------

/// Version comparison is a total order.
pub proof fn law_versions_are_totally_ordered(
    a: (nat, nat, nat),
    b: (nat, nat, nat),
    c: (nat, nat, nat),
)
    ensures
        version_le(a, a),
        version_le(a, b) || version_le(b, a),
        version_le(a, b) && version_le(b, a) ==> a == b,
        version_le(a, b) && version_le(b, c) ==> version_le(a, c),
{
}

/// A leading `v` changes nothing: a tag and the version taken from it are the
/// same version.
pub proof fn law_leading_v_is_ignored(tag: Seq<char>)
    ensures
        version_of(text::without_v(tag)) == version_of(tag),
{
    text::lemma_leading_extent(tag, CharClass::LetterV);
    let w = text::without_v(tag);
    assert(text::leading(w, CharClass::LetterV) == 0) by {
        if w.len() > 0 {
            assert(w[0] == tag[text::leading(tag, CharClass::LetterV) as int]);
        }
    }
    assert(w.skip(0) =~= w);
}

/// Pre-release and build suffixes are ignored: whatever follows a `-` or a `+`
/// changes nothing.
pub proof fn law_suffix_is_ignored(v: Seq<char>, suffix: Seq<char>)
    requires
        suffix.len() > 0,
        suffix[0] == '-' || suffix[0] == '+',
    ensures
        version_of(v + suffix) == version_of(v),
{
    text::lemma_leading_append(v, suffix, CharClass::LetterV);
    let w = text::without_v(v);
    assert(text::without_v(v + suffix) =~= w + suffix);
    text::lemma_leading_append(w, suffix, CharClass::Core);
    assert(version_core(v + suffix) =~= version_core(v));
}

/// Digits hold neither a dot nor the start of a suffix nor a `v`.
proof fn lemma_decimal_is_plain(n: nat, class: CharClass)
    requires
        class is Part || class is Core,
    ensures
        text::leading(text::decimal(n), class) == text::decimal(n).len(),
        text::leading(text::decimal(n), CharClass::LetterV) == 0,
        text::decimal(n).len() > 0,
        text::decimal(n)[0] != 'v',
{
    let s = text::decimal(n);
    text::lemma_decimal(n);
    assert(text::is_digit(s[0]));
    assert forall|i: int| 0 <= i < s.len() implies class.has(#[trigger] s[i]) by {
        assert(text::is_digit(s[i]));
    }
    text::lemma_leading_is(s, class, s.len());
}

/// One decimal part in front of a dot: the part is read, then the rest.
proof fn lemma_part_then_rest(n: nat, rest: Seq<char>)
    requires
        n <= u64::MAX,
        rest.len() == 0 || rest[0] == '.',
    ensures
        numeric_parts(text::decimal(n) + rest) == seq![n] + (if rest.len() == 0 {
            Seq::<nat>::empty()
        } else {
            numeric_parts(rest.skip(1))
        }),
{
    let d = text::decimal(n);
    let s = d + rest;
    lemma_decimal_is_plain(n, CharClass::Part);
    text::lemma_leading_append(d, rest, CharClass::Part);
    assert(s.take(d.len() as int) =~= d);
    text::law_decimal_round_trip(n, u64::MAX as nat);
    if rest.len() > 0 {
        assert(s.skip(d.len() as int + 1) =~= rest.skip(1));
    } else {
        assert(numeric_parts(s) =~= seq![n] + Seq::<nat>::empty());
    }
}

/// The notation of the version `x.y.z`.
pub open spec fn dotted(x: nat, y: nat, z: nat) -> Seq<char> {
    text::decimal(x) + (seq!['.'] + text::decimal(y) + (seq!['.'] + text::decimal(z)))
}

/// `"x.y.z"` is read as `(x, y, z)`, whatever the three numbers are.
pub proof fn law_version_round_trip(x: nat, y: nat, z: nat)
    requires
        x <= u64::MAX,
        y <= u64::MAX,
        z <= u64::MAX,
    ensures
        version_of(dotted(x, y, z)) == (x, y, z),
{
    let dx = text::decimal(x);
    let dy = text::decimal(y);
    let dz = text::decimal(z);
    let tz = seq!['.'] + dz;
    let ty = seq!['.'] + dy + tz;
    let s = dx + ty;
    assert(s == dotted(x, y, z));
    lemma_decimal_is_plain(x, CharClass::Core);
    lemma_decimal_is_plain(y, CharClass::Core);
    lemma_decimal_is_plain(z, CharClass::Core);
    assert(s[0] == dx[0]);
    assert(text::without_v(s) =~= s);
    text::lemma_leading_extent(dx, CharClass::Core);
    text::lemma_leading_extent(dy, CharClass::Core);
    text::lemma_leading_extent(dz, CharClass::Core);
    assert forall|i: int| 0 <= i < s.len() implies CharClass::Core.has(#[trigger] s[i]) by {
        let a = dx.len() as int;
        let b = a + 1 + dy.len();
        if i < a {
            assert(s[i] == dx[i]);
        } else if i == a {
            assert(s[i] == '.');
        } else if i < b {
            assert(s[i] == dy[i - a - 1]);
        } else if i == b {
            assert(s[i] == '.');
        } else {
            assert(s[i] == dz[i - b - 1]);
        }
    }
    text::lemma_leading_is(s, CharClass::Core, s.len());
    assert(version_core(s) =~= s);
    lemma_part_then_rest(x, ty);
    assert(ty.skip(1) =~= dy + tz);
    lemma_part_then_rest(y, tz);
    assert(tz.skip(1) =~= dz);
    assert(dz + Seq::<char>::empty() =~= dz);
    lemma_part_then_rest(z, Seq::<char>::empty());
    let parts = numeric_parts(s);
    assert(parts =~= seq![x, y, z]);
}

/// Only a newer release is ever offered, and once its version runs, the same
/// document offers nothing more.
pub proof fn law_offer_is_newer_and_settles(doc: DocumentView, current: Seq<char>)
    ensures
        newer_release(doc, current) matches Ok(Some(release)) ==> {
            &&& !version_le(version_of(release.version), version_of(current))
            &&& newer_release(doc, release.version) == Ok::<Option<ReleaseView>, Seq<char>>(None)
        },
{
    match doc.tag_name {
        Some(tag) => {
            law_leading_v_is_ignored(tag);
        },
        None => {},
    }
}

/// The asset that is offered is the first one whose name ends in `.exe`.
pub proof fn law_first_executable_wins(assets: Seq<AssetView>, i: int)
    requires
        0 <= i < assets.len(),
        is_executable(assets[i]),
        forall|j: int| 0 <= j < i ==> !is_executable(#[trigger] assets[j]),
    ensures
        first_executable(assets) == Some(assets[i]),
    decreases i,
{
    if i > 0 {
        assert(!is_executable(assets[0]));
        let rest = assets.drop_first();
        assert forall|j: int| 0 <= j < i - 1 implies !is_executable(#[trigger] rest[j]) by {
            assert(rest[j] == assets[j + 1]);
        }
        law_first_executable_wins(rest, i - 1);
    }
}

/// The whole flow: a check that finds a release, then its installation, ends
/// with that release staged; and the release that is handed out for download is
/// the one that was found.
pub proof fn law_found_release_is_staged(u: UpdaterView, release: ReleaseView)
    requires
        !busy(u.status),
    ensures
        ({
            let found = check_concluded(check_started(u), Ok(Some(release)));
            let installing = install_started(found);
            &&& found.status == StatusView::Available(release.version)
            &&& found.pending == Some(release)
            &&& installing.status == StatusView::Installing
            &&& check_started(installing) == installing
            &&& install_concluded(installing, release.version, Ok(())).status
                == StatusView::Staged(release.version)
        }),
{
}

/// A failed check or installation forgets nothing: the release that waited still
/// waits, and a new check is possible.
pub proof fn law_failure_keeps_the_pending_release(
    u: UpdaterView,
    version: Seq<char>,
    e: Seq<char>,
)
    ensures
        check_concluded(u, Err(e)).pending == u.pending,
        install_concluded(u, version, Err(e)).pending == u.pending,
        check_started(check_concluded(u, Err(e))).status == StatusView::Checking,
        check_started(install_concluded(u, version, Err(e))).status == StatusView::Checking,
{
}

/// A greater version is newer, by the first part that differs: the major one
/// before the minor one before the patch; equal versions are not newer.
pub proof fn law_first_difference_decides(a: (nat, nat, nat), b: (nat, nat, nat))
    ensures
        a.0 < b.0 ==> version_le(a, b) && !version_le(b, a),
        a.0 == b.0 && a.1 < b.1 ==> version_le(a, b) && !version_le(b, a),
        a.0 == b.0 && a.1 == b.1 && a.2 < b.2 ==> version_le(a, b) && !version_le(b, a),
        a == b ==> version_le(a, b),
{
}

/// Dot-separated parts are read one by one: a number counts, and a part that is
/// none is passed over.
pub proof fn law_parts_are_read_one_by_one(part: Seq<char>, rest: Seq<char>)
    requires
        forall|i: int| 0 <= i < part.len() ==> #[trigger] part[i] != '.',
    ensures
        ({
            let head = match text::number_of(part, u64::MAX as nat) {
                Some(n) => seq![n],
                None => Seq::<nat>::empty(),
            };
            &&& numeric_parts(part) == head
            &&& numeric_parts(part + seq!['.'] + rest) == head + numeric_parts(rest)
        }),
{
    assert forall|i: int| 0 <= i < part.len() implies CharClass::Part.has(
        #[trigger] part[i],
    ) by {}
    text::lemma_leading_is(part, CharClass::Part, part.len());
    assert(part.take(part.len() as int) =~= part);
    let s = part + seq!['.'] + rest;
    assert forall|i: int| 0 <= i < part.len() implies CharClass::Part.has(#[trigger] s[i]) by {
        assert(s[i] == part[i]);
    }
    assert(s[part.len() as int] == '.');
    text::lemma_leading_is(s, CharClass::Part, part.len());
    assert(s.take(part.len() as int) =~= part);
    assert(s.skip(part.len() as int + 1) =~= rest);
}

/// A version is the first three numbers of what stands between the letters `v`
/// and the suffix, with zero for each that is missing.
pub proof fn law_version_is_the_first_three_numbers(
    vs: Seq<char>,
    core: Seq<char>,
    suffix: Seq<char>,
)
    requires
        forall|i: int| 0 <= i < vs.len() ==> #[trigger] vs[i] == 'v',
        core.len() > 0 ==> core[0] != 'v',
        forall|i: int| 0 <= i < core.len() ==> #[trigger] core[i] != '-' && core[i] != '+',
        suffix.len() > 0 ==> suffix[0] == '-' || suffix[0] == '+',
    ensures
        ({
            let parts = numeric_parts(core);
            let v = version_of(vs + core + suffix);
            &&& v.0 == if parts.len() > 0 {
                parts[0]
            } else {
                0
            }
            &&& v.1 == if parts.len() > 1 {
                parts[1]
            } else {
                0
            }
            &&& v.2 == if parts.len() > 2 {
                parts[2]
            } else {
                0
            }
        }),
{
    let w = core + suffix;
    if core.len() > 0 {
        assert(w[0] == core[0]);
    } else if suffix.len() > 0 {
        assert(w[0] == suffix[0]);
    }
    text::law_only_leading_v_is_stripped(vs, w);
    assert(vs + core + suffix =~= vs + w);
    assert forall|i: int| 0 <= i < core.len() implies CharClass::Core.has(#[trigger] w[i]) by {
        assert(w[i] == core[i]);
    }
    if suffix.len() > 0 {
        assert(w[core.len() as int] == suffix[0]);
    }
    text::lemma_leading_is(w, CharClass::Core, core.len());
    assert(w.take(core.len() as int) =~= core);
}

/// Every newer release is offered: if its tag writes a greater version than the
/// running build, in any of the three parts, and its first `.exe` asset has an
/// address, then the offer is the tag without its leading `v` and that address.
pub proof fn law_newer_release_is_offered(
    doc: DocumentView,
    current: Seq<char>,
    vs: Seq<char>,
    rest: Seq<char>,
    i: int,
)
    requires
        forall|k: int| 0 <= k < vs.len() ==> #[trigger] vs[k] == 'v',
        rest.len() > 0 ==> rest[0] != 'v',
        doc.tag_name == Some(vs + rest),
        ({
            let a = version_of(vs + rest);
            let b = version_of(current);
            a.0 > b.0 || (a.0 == b.0 && (a.1 > b.1 || (a.1 == b.1 && a.2 > b.2)))
        }),
        doc.assets is Some,
        0 <= i < doc.assets->0.len(),
        (doc.assets->0)[i].name matches Some(n) && ".exe"@.is_suffix_of(n),
        (doc.assets->0)[i].url is Some,
        forall|j: int|
            0 <= j < i ==> !((#[trigger] (doc.assets->0)[j]).name matches Some(n)
                && ".exe"@.is_suffix_of(n)),
    ensures
        newer_release(doc, current) == Ok::<Option<ReleaseView>, Seq<char>>(
            Some(ReleaseView { version: rest, asset_url: (doc.assets->0)[i].url->0 }),
        ),
{
    let assets = doc.assets->0;
    assert forall|j: int| 0 <= j < i implies !is_executable(#[trigger] assets[j]) by {}
    law_first_executable_wins(assets, i);
    text::law_only_leading_v_is_stripped(vs, rest);
}

/// Nothing else is offered: a release that is no greater than the running build
/// is no update, whatever its assets; one that is greater but whose first `.exe`
/// asset is missing or has no address, and one without a tag, are errors.
pub proof fn law_nothing_else_is_offered(doc: DocumentView, current: Seq<char>, i: int)
    ensures
        doc.tag_name is None ==> newer_release(doc, current) == Err::<
            Option<ReleaseView>,
            Seq<char>,
        >("release has no tag_name"@),
        doc.tag_name matches Some(tag) && ({
            let a = version_of(tag);
            let b = version_of(current);
            a.0 < b.0 || (a.0 == b.0 && (a.1 < b.1 || (a.1 == b.1 && a.2 <= b.2)))
        }) ==> newer_release(doc, current) == Ok::<Option<ReleaseView>, Seq<char>>(None),
        doc.tag_name matches Some(tag) && ({
            let a = version_of(tag);
            let b = version_of(current);
            a.0 > b.0 || (a.0 == b.0 && (a.1 > b.1 || (a.1 == b.1 && a.2 > b.2)))
        }) && (doc.assets is None || (forall|j: int|
            0 <= j < doc.assets->0.len() ==> !((#[trigger] (doc.assets->0)[j]).name matches Some(n)
                && ".exe"@.is_suffix_of(n))) || (0 <= i < doc.assets->0.len() && (
        doc.assets->0)[i].url is None && ((doc.assets->0)[i].name matches Some(n)
            && ".exe"@.is_suffix_of(n)) && forall|j: int|
            0 <= j < i ==> !((#[trigger] (doc.assets->0)[j]).name matches Some(n)
                && ".exe"@.is_suffix_of(n)))) ==> newer_release(doc, current) == Err::<
            Option<ReleaseView>,
            Seq<char>,
        >("latest release has no .exe asset"@),
{
    if doc.assets is Some {
        let assets = doc.assets->0;
        if forall|j: int| 0 <= j < assets.len() ==> !is_executable(#[trigger] assets[j]) {
            lemma_no_executable(assets);
        }
        if 0 <= i < assets.len() && is_executable(assets[i]) && (forall|j: int|
            0 <= j < i ==> !is_executable(#[trigger] assets[j])) {
            law_first_executable_wins(assets, i);
        }
        assert forall|j: int|
            0 <= j < assets.len() && !((#[trigger] assets[j]).name matches Some(n)
                && ".exe"@.is_suffix_of(n)) implies !is_executable(assets[j]) by {}
    }
}

/// Without an executable none is found.
proof fn lemma_no_executable(assets: Seq<AssetView>)
    requires
        forall|j: int| 0 <= j < assets.len() ==> !is_executable(#[trigger] assets[j]),
    ensures
        first_executable(assets) is None,
    decreases assets.len(),
{
    if assets.len() > 0 {
        assert(!is_executable(assets[0]));
        let rest = assets.drop_first();
        assert forall|j: int| 0 <= j < rest.len() implies !is_executable(#[trigger] rest[j]) by {
            assert(rest[j] == assets[j + 1]);
        }
        lemma_no_executable(rest);
    }
}

/// Whether a JSON value is an object whose name ends in `.exe`.
pub open spec fn names_an_executable(tree: JsonTree) -> bool {
    tree matches JsonTree::Object(o) && o.contains_key("name"@) && (o["name"@] matches
        JsonTree::Text(n) && ".exe"@.is_suffix_of(n))
}

/// From the answer of the server to the offer: a document with a tag that writes
/// a greater version than the running build leads to the offer of just that tag
/// and of the download address of the first asset whose name ends in `.exe`.
pub proof fn law_answer_leads_to_the_offer(
    fetched: Fetched,
    current: Seq<char>,
    members: Map<Seq<char>, JsonTree>,
    vs: Seq<char>,
    rest: Seq<char>,
    list: Seq<JsonTree>,
    i: int,
    asset: Map<Seq<char>, JsonTree>,
    url: Seq<char>,
)
    requires
        fetched matches Fetched::Body(bytes) && json::json_document(bytes@) == Ok::<
            JsonTree,
            Seq<char>,
        >(JsonTree::Object(members)),
        members.contains_key("tag_name"@),
        members["tag_name"@] == JsonTree::Text(vs + rest),
        forall|k: int| 0 <= k < vs.len() ==> #[trigger] vs[k] == 'v',
        rest.len() > 0 ==> rest[0] != 'v',
        ({
            let a = version_of(vs + rest);
            let b = version_of(current);
            a.0 > b.0 || (a.0 == b.0 && (a.1 > b.1 || (a.1 == b.1 && a.2 > b.2)))
        }),
        members.contains_key("assets"@),
        members["assets"@] == JsonTree::Array(list),
        0 <= i < list.len(),
        list[i] == JsonTree::Object(asset),
        asset.contains_key("name"@),
        asset["name"@] matches JsonTree::Text(n) && ".exe"@.is_suffix_of(n),
        asset.contains_key("browser_download_url"@),
        asset["browser_download_url"@] == JsonTree::Text(url),
        forall|j: int| 0 <= j < i ==> !names_an_executable(#[trigger] list[j]),
    ensures
        fetch_outcome(fetched, current) == Ok::<Option<ReleaseView>, Seq<char>>(
            Some(ReleaseView { version: rest, asset_url: url }),
        ),
{
    let doc = document_of(JsonTree::Object(members));
    let assets = doc.assets->0;
    assert(assets[i] == asset_of(list[i]));
    assert forall|j: int| 0 <= j < i implies !((#[trigger] assets[j]).name matches Some(n)
        && ".exe"@.is_suffix_of(n)) by {
        assert(assets[j] == asset_of(list[j]));
        assert(!names_an_executable(list[j]));
    }
    law_newer_release_is_offered(doc, current, vs, rest, i);
}

/// An answer that could not be had or read is an error that names the step and
/// carries the cause in full, and so is one without a tag.
pub proof fn law_bad_answer_is_an_error(fetched: Fetched, current: Seq<char>, tree: JsonTree)
    ensures
        fetched matches Fetched::RequestFailed(e) ==> fetch_outcome(fetched, current) == Err::<
            Option<ReleaseView>,
            Seq<char>,
        >("request failed: "@ + e@),
        fetched matches Fetched::ReadFailed(e) ==> fetch_outcome(fetched, current) == Err::<
            Option<ReleaseView>,
            Seq<char>,
        >("read failed: "@ + e@),
        fetched matches Fetched::Body(bytes) ==> (json::json_document(bytes@) matches Err(e)
            ==> fetch_outcome(fetched, current) == Err::<Option<ReleaseView>, Seq<char>>(
            "parse failed: "@ + e,
        )),
        fetched matches Fetched::Body(bytes) && json::json_document(bytes@) == Ok::<
            JsonTree,
            Seq<char>,
        >(tree) && !(tree matches JsonTree::Object(m) && m.contains_key("tag_name"@)
            && m["tag_name"@] is Text) ==> fetch_outcome(fetched, current) == Err::<
            Option<ReleaseView>,
            Seq<char>,
        >("release has no tag_name"@),
{
}

/// The flow keeps its books: a check changes only the status and only when
/// neither a check nor an installation is under way; what it finds is shown and
/// waits, and nothing else replaces what waits; an installation starts exactly
/// when something waits, and its end is shown.
pub proof fn law_update_flow_keeps_its_books(
    u: UpdaterView,
    release: ReleaseView,
    version: Seq<char>,
    e: Seq<char>,
)
    ensures
        busy(u.status) <==> u.status is Checking || u.status is Installing,
        u.status is Checking || u.status is Installing ==> check_started(u) == u,
        !(u.status is Checking || u.status is Installing) ==> check_started(u).status is Checking,
        check_started(u).pending == u.pending,
        check_concluded(u, Ok(Some(release))).status == StatusView::Available(release.version),
        check_concluded(u, Ok(Some(release))).pending == Some(release),
        check_concluded(u, Ok(None)).status is UpToDate,
        check_concluded(u, Ok(None)).pending == u.pending,
        check_concluded(u, Err(e)).status == StatusView::Errored(e),
        check_concluded(u, Err(e)).pending == u.pending,
        u.pending is Some ==> install_started(u).status is Installing,
        u.pending is None ==> install_started(u) == u,
        install_started(u).pending == u.pending,
        install_concluded(u, version, Ok(())).status == StatusView::Staged(version),
        install_concluded(u, version, Err(e)).status == StatusView::Errored(e),
        install_concluded(u, version, Ok(())).pending == u.pending,
        install_concluded(u, version, Err(e)).pending == u.pending,
{
}

/// Releases, documents, statuses and outcomes are seen as they are.
pub proof fn law_updates_are_seen_as_they_are(
    status: UpdateStatus,
    release: Release,
    asset: ReleaseAsset,
    doc: ReleaseDocument,
    found: Result<Option<Release>, String>,
    installed: Result<(), String>,
    update: CliUpdate,
)
    ensures
        status matches UpdateStatus::Available(v) ==> status@ == StatusView::Available(v@),
        status matches UpdateStatus::Staged(v) ==> status@ == StatusView::Staged(v@),
        status matches UpdateStatus::Errored(e) ==> status@ == StatusView::Errored(e@),
        status is Idle ==> status@ is Idle,
        status is Checking ==> status@ is Checking,
        status is UpToDate ==> status@ is UpToDate,
        status is Installing ==> status@ is Installing,
        release@.version == release.version@,
        release@.asset_url == release.asset_url@,
        asset.name matches Some(n) ==> asset@.name == Some(n@),
        asset.name is None ==> asset@.name is None,
        asset.url matches Some(a) ==> asset@.url == Some(a@),
        asset.url is None ==> asset@.url is None,
        doc.tag_name matches Some(t) ==> doc@.tag_name == Some(t@),
        doc.tag_name is None ==> doc@.tag_name is None,
        doc.assets is None ==> doc@.assets is None,
        doc.assets matches Some(a) ==> doc@.assets is Some && doc@.assets->0.len() == a@.len() && (
        forall|k: int| 0 <= k < a@.len() ==> (#[trigger] (doc@.assets->0)[k]) == a@[k]@),
        found matches Ok(Some(r)) ==> check_view(found) == Ok::<Option<ReleaseView>, Seq<char>>(
            Some(r@),
        ),
        found matches Ok(None) ==> check_view(found) == Ok::<Option<ReleaseView>, Seq<char>>(None),
        found matches Err(e) ==> check_view(found) == Err::<Option<ReleaseView>, Seq<char>>(e@),
        installed is Ok ==> install_view(installed) is Ok,
        installed matches Err(e) ==> install_view(installed) == Err::<(), Seq<char>>(e@),
        update matches CliUpdate::Exit(o) ==> update@ == CliUpdateView::Exit(o@),
        update matches CliUpdate::Download { announce, release: r } ==> update@
            == CliUpdateView::Download(announce@, r@),
{
}

} // verus!
