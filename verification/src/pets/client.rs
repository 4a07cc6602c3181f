//! The bridge from a WSL-hosted Codex session to the Windows pet overlay:
//! which command each request becomes, where the helper is looked for, and
//! the PowerShell script that launches it. Spawning the helper and moving
//! lines over its pipes is done by the caller.
use vstd::prelude::*;
use vstd::string::*;

use crate::hostpath::{file_name_of, joined, parent_of, path_file_name, path_join, path_parent};
use crate::pets::protocol::{HelperCommand, HelperCommandView, HelperSnapshot, HelperSnapshotView, PetState};
use crate::text::{
    chars_of, clone_opt, contains_chars, extend_chars, extend_str, has_subseq, lower_chars,
    lower_seq, opt_eq, replace_char, replace_chars, string_of, trim_leading, trim_leading_chars,
};
use crate::winpath::{mount_to_windows, pwsh_quoted};

pub use crate::winpath::pwsh_quote;
pub use crate::winpath::wsl_mount_to_windows_path;

verus! {

/// File name of the native (legacy) Windows helper.
pub const WINDOWS_HELPER_EXE: &'static str = "codex-pets-windows.exe";

/// Target triple under which the Windows helper is built.
pub const WINDOWS_TARGET_TRIPLE: &'static str = "x86_64-pc-windows-msvc";

/// Workspace-relative directory of the Electron helper.
pub const ELECTRON_HELPER_DIR: &'static str = "pets-windows/electron";

/// Configuration of the overlay for this session.
#[derive(Debug, Clone, PartialEq, Eq)]
pub struct PetsRuntimeConfig {
    pub selected_pet: String,
}

/// What the session wants the overlay to show.
#[derive(Debug, Clone, PartialEq, Eq)]
pub struct PetsSnapshot {
    pub state: PetState,
    pub title: String,
    pub subtitle: Option<String>,
    pub detail: Option<String>,
    pub notification_count: u32,
}

/// The value a [`PetsSnapshot`] stands for.
pub struct PetsSnapshotView {
    pub state: PetState,
    pub title: Seq<char>,
    pub subtitle: Option<Seq<char>>,
    pub detail: Option<Seq<char>>,
    pub notification_count: u32,
}

impl View for PetsSnapshot {
    type V = PetsSnapshotView;

    open spec fn view(&self) -> PetsSnapshotView {
        PetsSnapshotView {
            state: self.state,
            title: self.title@,
            subtitle: self.subtitle.deep_view(),
            detail: self.detail.deep_view(),
            notification_count: self.notification_count,
        }
    }
}

/// A request from the session to the bridge.
pub enum PetsRequest {
    Toggle,
    Update(PetsSnapshot),
    Shutdown,
}

/// The value a [`PetsRequest`] stands for.
pub enum PetsRequestView {
    Toggle,
    Update(PetsSnapshotView),
    Shutdown,
}

impl View for PetsRequest {
    type V = PetsRequestView;

    open spec fn view(&self) -> PetsRequestView {
        match self {
            PetsRequest::Toggle => PetsRequestView::Toggle,
            PetsRequest::Update(s) => PetsRequestView::Update(s@),
            PetsRequest::Shutdown => PetsRequestView::Shutdown,
        }
    }
}

/// The bridge's memory: the configured pet, the terminal to return focus to,
/// and the last snapshot sent to the helper.
pub struct PetsBridge {
    selected_pet: String,
    terminal_window_hint: Option<String>,
    last_snapshot: Option<PetsSnapshot>,
}

/// The value a [`PetsBridge`] stands for.
pub struct PetsBridgeView {
    pub selected_pet: Seq<char>,
    pub terminal_window_hint: Option<Seq<char>>,
    pub last_snapshot: Option<PetsSnapshotView>,
}

impl View for PetsBridge {
    type V = PetsBridgeView;

    closed spec fn view(&self) -> PetsBridgeView {
        PetsBridgeView {
            selected_pet: self.selected_pet@,
            terminal_window_hint: self.terminal_window_hint.deep_view(),
            last_snapshot: match self.last_snapshot {
                Some(s) => Some(s@),
                None => None,
            },
        }
    }
}

/// An optional command seen through its view.
pub open spec fn command_view(c: Option<HelperCommand>) -> Option<HelperCommandView> {
    match c {
        Some(c) => Some(c@),
        None => None,
    }
}

/// The helper snapshot that a session snapshot becomes for pet `pet`.
pub open spec fn helper_snapshot_for(pet: Seq<char>, s: PetsSnapshotView) -> HelperSnapshotView {
    HelperSnapshotView {
        pet: pet,
        state: s.state,
        title: s.title,
        subtitle: s.subtitle,
        detail: s.detail,
    }
}

/// One step of the bridge: the next state, and the command to send, if any.
/// `Toggle` asks the helper to show (or hide) the configured pet; an
/// `Update` equal to the last one sent is dropped; `Shutdown` is forwarded.
pub open spec fn bridge_step(state: PetsBridgeView, request: PetsRequestView) -> (
    PetsBridgeView,
    Option<HelperCommandView>,
) {
    match request {
        PetsRequestView::Toggle => (
            state,
            Some(
                HelperCommandView::Show {
                    pet: state.selected_pet,
                    terminal_window_hint: state.terminal_window_hint,
                },
            ),
        ),
        PetsRequestView::Update(s) => {
            if state.last_snapshot == Some(s) {
                (state, None)
            } else {
                (
                    PetsBridgeView { last_snapshot: Some(s), ..state },
                    Some(
                        HelperCommandView::SetSnapshot {
                            snapshot: helper_snapshot_for(state.selected_pet, s),
                        },
                    ),
                )
            }
        },
        PetsRequestView::Shutdown => (state, Some(HelperCommandView::Shutdown)),
    }
}

impl PetsSnapshot {
    /// Snapshots compared by value.
    pub fn same_as(&self, other: &PetsSnapshot) -> (r: bool)
        ensures
            r == (self@ == other@),
    {
        self.state == other.state && self.title == other.title && opt_eq(
            &self.subtitle,
            &other.subtitle,
        ) && opt_eq(&self.detail, &other.detail) && self.notification_count
            == other.notification_count
    }
}

impl PetsBridge {
    /// A bridge for `config`, returning focus to the terminal named by
    /// `terminal_window_hint`, that has sent no snapshot yet.
    pub fn new(config: PetsRuntimeConfig, terminal_window_hint: Option<String>) -> (b: PetsBridge)
        ensures
            b@ == (PetsBridgeView {
                selected_pet: config.selected_pet@,
                terminal_window_hint: terminal_window_hint.deep_view(),
                last_snapshot: None,
            }),
    {
        PetsBridge { selected_pet: config.selected_pet, terminal_window_hint, last_snapshot: None }
    }

    /// Handles one request; the command returned is written to the helper,
    /// and after a `Shutdown` command the bridge stops.
    pub fn handle(&mut self, request: PetsRequest) -> (command: Option<HelperCommand>)
        ensures
            (final(self)@, command_view(command)) == bridge_step(old(self)@, request@),
    {
        match request {
            PetsRequest::Toggle => Some(
                HelperCommand::Show {
                    pet: self.selected_pet.clone(),
                    terminal_window_hint: clone_opt(&self.terminal_window_hint),
                },
            ),
            PetsRequest::Update(snapshot) => {
                let repeated = match &self.last_snapshot {
                    Some(last) => snapshot.same_as(last),
                    None => false,
                };
                if repeated {
                    return None;
                }
                let helper = HelperSnapshot {
                    pet: self.selected_pet.clone(),
                    state: snapshot.state,
                    title: snapshot.title.clone(),
                    subtitle: clone_opt(&snapshot.subtitle),
                    detail: clone_opt(&snapshot.detail),
                };
                self.last_snapshot = Some(snapshot);
                Some(HelperCommand::SetSnapshot { snapshot: helper })
            },
            PetsRequest::Shutdown => Some(HelperCommand::Shutdown),
        }
    }
}

/// Why the overlay helper could not be located.
pub enum HelperLookupError {
    ExeUnavailable,
    NoParentDirectory,
    NoProfileName,
    NoTargetDirectory,
    NoWorkspaceDirectory,
    NotFound { helper_path: String, electron_app_dir: String },
    DistroNameUnset,
}

impl HelperLookupError {
    /// The text of the error, as the session reports it.
    pub fn message(&self) -> (m: String)
        ensures
            m@ == match self {
                HelperLookupError::ExeUnavailable =>
                    "Codex executable path is unavailable for pets helper lookup"@,
                HelperLookupError::NoParentDirectory =>
                    "Codex executable path has no parent directory"@,
                HelperLookupError::NoProfileName =>
                    "failed to derive build profile from Codex executable path"@,
                HelperLookupError::NoTargetDirectory =>
                    "failed to derive target directory from Codex executable path"@,
                HelperLookupError::NoWorkspaceDirectory =>
                    "failed to derive workspace directory from Codex executable path"@,
                HelperLookupError::NotFound { helper_path, electron_app_dir } =>
                    "pets helper was not found at "@ + helper_path@ + " or "@ + electron_app_dir@,
                HelperLookupError::DistroNameUnset =>
                    "WSL_DISTRO_NAME is not set; cannot construct Windows path for helper"@,
            },
    {
        match self {
            HelperLookupError::ExeUnavailable => String::from_str(
                "Codex executable path is unavailable for pets helper lookup",
            ),
            HelperLookupError::NoParentDirectory => String::from_str(
                "Codex executable path has no parent directory",
            ),
            HelperLookupError::NoProfileName => String::from_str(
                "failed to derive build profile from Codex executable path",
            ),
            HelperLookupError::NoTargetDirectory => String::from_str(
                "failed to derive target directory from Codex executable path",
            ),
            HelperLookupError::NoWorkspaceDirectory => String::from_str(
                "failed to derive workspace directory from Codex executable path",
            ),
            HelperLookupError::NotFound { helper_path, electron_app_dir } => {
                let mut v: Vec<char> = Vec::new();
                extend_str(&mut v, "pets helper was not found at ");
                extend_str(&mut v, helper_path.as_str());
                extend_str(&mut v, " or ");
                extend_str(&mut v, electron_app_dir.as_str());
                string_of(&v)
            },
            HelperLookupError::DistroNameUnset => String::from_str(
                "WSL_DISTRO_NAME is not set; cannot construct Windows path for helper",
            ),
        }
    }
}

/// The two places the overlay helper may have been built: the native
/// helper next to the Windows build of Codex, and the Electron app in the
/// workspace.
pub struct HelperCandidates {
    pub helper_path: String,
    pub electron_app_dir: String,
}

/// Where the helper candidates lie for the Codex executable `exe`, or the
/// step of the lookup that failed: the profile directory is the parent of
/// `exe` and names the build profile, the target directory is its parent,
/// and the workspace is the parent of that.
pub open spec fn candidates_for(exe: Option<Seq<char>>) -> Result<(Seq<char>, Seq<char>), int> {
    match exe {
        None => Err(0),
        Some(exe) => match parent_of(exe) {
            None => Err(1),
            Some(profile_dir) => match file_name_of(profile_dir) {
                None => Err(2),
                Some(profile_name) => match parent_of(profile_dir) {
                    None => Err(3),
                    Some(target_dir) => match parent_of(target_dir) {
                        None => Err(4),
                        Some(workspace_dir) => Ok(
                            (
                                joined(
                                    joined(joined(target_dir, WINDOWS_TARGET_TRIPLE@), profile_name),
                                    WINDOWS_HELPER_EXE@,
                                ),
                                joined(workspace_dir, ELECTRON_HELPER_DIR@),
                            ),
                        ),
                    },
                },
            },
        },
    }
}

/// The failure a step number of [`candidates_for`] stands for.
pub open spec fn lookup_step_error(e: HelperLookupError, step: int) -> bool {
    match e {
        HelperLookupError::ExeUnavailable => step == 0,
        HelperLookupError::NoParentDirectory => step == 1,
        HelperLookupError::NoProfileName => step == 2,
        HelperLookupError::NoTargetDirectory => step == 3,
        HelperLookupError::NoWorkspaceDirectory => step == 4,
        _ => false,
    }
}

/// Computes where the overlay helper may be for the Codex executable at
/// `codex_self_exe` (`None` when that path is unknown).
pub fn helper_candidates(codex_self_exe: Option<&str>) -> (r: Result<HelperCandidates, HelperLookupError>)
    ensures
        match (r, candidates_for(
            match codex_self_exe {
                Some(e) => Some(e@),
                None => None,
            },
        )) {
            (Ok(c), Ok((helper, electron))) => c.helper_path@ == helper && c.electron_app_dir@
                == electron,
            (Err(e), Err(step)) => lookup_step_error(e, step),
            _ => false,
        },
{
    let exe = match codex_self_exe {
        Some(exe) => exe,
        None => return Err(HelperLookupError::ExeUnavailable),
    };
    let profile_dir = match path_parent(exe) {
        Some(p) => p,
        None => return Err(HelperLookupError::NoParentDirectory),
    };
    let profile_name = match path_file_name(profile_dir.as_str()) {
        Some(n) => n,
        None => return Err(HelperLookupError::NoProfileName),
    };
    let target_dir = match path_parent(profile_dir.as_str()) {
        Some(t) => t,
        None => return Err(HelperLookupError::NoTargetDirectory),
    };
    let triple_dir = path_join(target_dir.as_str(), WINDOWS_TARGET_TRIPLE);
    let profile_out = path_join(triple_dir.as_str(), profile_name.as_str());
    let helper_path = path_join(profile_out.as_str(), WINDOWS_HELPER_EXE);
    let workspace_dir = match path_parent(target_dir.as_str()) {
        Some(w) => w,
        None => return Err(HelperLookupError::NoWorkspaceDirectory),
    };
    let electron_app_dir = path_join(workspace_dir.as_str(), ELECTRON_HELPER_DIR);
    Ok(HelperCandidates { helper_path, electron_app_dir })
}

/// The launch paths of every way the overlay helper can be started, as
/// Windows sees them.
pub struct HelperLocations {
    pub legacy_helper: String,
    pub electron_app_dir: String,
    pub electron_portable: String,
    pub electron_unpacked: String,
    pub electron_cmd: String,
}

/// `\\wsl.localhost\<distro>\<path>`: a Linux path seen from Windows
/// through the WSL network share, separators turned into `\`.
pub open spec fn localhost_path(path: Seq<char>, distro: Seq<char>) -> Seq<char> {
    "\\\\wsl.localhost\\"@ + distro + "\\"@ + replace_char(
        trim_leading(path, '/'),
        '/',
        seq!['\\'],
    )
}

/// The Windows path to launch the Linux file at `path` by: its drive path
/// when it lies on a mounted drive, else its `\\wsl.localhost` path in
/// distribution `distro`; with no distribution name, no path.
pub open spec fn launch_path_for(path: Seq<char>, distro: Option<Seq<char>>) -> Option<Seq<char>> {
    match mount_to_windows(path) {
        Some(m) => Some(m),
        None => match distro {
            Some(d) => Some(localhost_path(path, d)),
            None => None,
        },
    }
}

/// The path of `path` on the `\\wsl.localhost` share of `distro`.
pub fn wsl_localhost_launch_path(path: &str, distro: &str) -> (r: String)
    ensures
        r@ == localhost_path(path@, distro@),
{
    let p = chars_of(path);
    let trimmed = trim_leading_chars(&p, '/');
    let backslash = vec!['\\'];
    let converted = replace_chars(&trimmed, '/', &backslash);
    let mut out: Vec<char> = Vec::new();
    extend_str(&mut out, "\\\\wsl.localhost\\");
    extend_str(&mut out, distro);
    extend_str(&mut out, "\\");
    extend_chars(&mut out, &converted);
    assert(backslash@ == seq!['\\']);
    string_of(&out)
}

/// The path Windows launches the Linux file at `path` by; `distro` is the
/// WSL distribution name, when the environment gives one.
pub fn linux_path_to_windows_launch_path(path: &str, distro: Option<&str>) -> (r: Result<
    String,
    HelperLookupError,
>)
    ensures
        match r {
            Ok(p) => launch_path_for(path@, opt_str_view(distro)) == Some(p@),
            Err(e) => launch_path_for(path@, opt_str_view(distro)) is None && e is DistroNameUnset,
        },
{
    match wsl_mount_to_windows_path(path) {
        Some(mapped) => Ok(mapped),
        None => match distro {
            Some(d) => Ok(wsl_localhost_launch_path(path, d)),
            None => Err(HelperLookupError::DistroNameUnset),
        },
    }
}

/// An optional string slice seen as characters.
pub open spec fn opt_str_view(s: Option<&str>) -> Option<Seq<char>> {
    match s {
        Some(s) => Some(s@),
        None => None,
    }
}

/// The five launch paths, or `None` when one of them cannot be formed.
pub open spec fn locations_for(
    helper_path: Seq<char>,
    electron_app_dir: Seq<char>,
    distro: Option<Seq<char>>,
) -> Option<(Seq<char>, Seq<char>, Seq<char>, Seq<char>, Seq<char>)> {
    let dist = joined(electron_app_dir, "dist"@);
    let portable = joined(dist, WINDOWS_HELPER_EXE@);
    let unpacked = joined(joined(dist, "win-unpacked"@), WINDOWS_HELPER_EXE@);
    let cmd = joined(joined(joined(electron_app_dir, "node_modules"@), ".bin"@), "electron.cmd"@);
    match (
        launch_path_for(helper_path, distro),
        launch_path_for(portable, distro),
        launch_path_for(unpacked, distro),
        launch_path_for(cmd, distro),
        launch_path_for(electron_app_dir, distro),
    ) {
        (Some(l), Some(p), Some(u), Some(c), Some(a)) => Some((l, p, u, c, a)),
        _ => None,
    }
}

/// Given where the helper may be and whether each candidate exists, the
/// launch paths of every way to start it. Neither candidate existing is an
/// error naming both; a path that is not on a mounted drive needs the WSL
/// distribution name.
pub fn resolve_helper_locations(
    candidates: &HelperCandidates,
    helper_exists: bool,
    electron_app_dir_exists: bool,
    distro: Option<&str>,
) -> (r: Result<HelperLocations, HelperLookupError>)
    ensures
        !helper_exists && !electron_app_dir_exists ==> (r matches Err(
            HelperLookupError::NotFound { helper_path, electron_app_dir },
        ) && helper_path@ == candidates.helper_path@ && electron_app_dir@
            == candidates.electron_app_dir@),
        helper_exists || electron_app_dir_exists ==> match (
            r,
            locations_for(
                candidates.helper_path@,
                candidates.electron_app_dir@,
                opt_str_view(distro),
            ),
        ) {
            (Ok(loc), Some((l, p, u, c, a))) => loc.legacy_helper@ == l && loc.electron_portable@
                == p && loc.electron_unpacked@ == u && loc.electron_cmd@ == c
                && loc.electron_app_dir@ == a,
            (Err(e), None) => e is DistroNameUnset,
            _ => false,
        },
{
    if !helper_exists && !electron_app_dir_exists {
        return Err(
            HelperLookupError::NotFound {
                helper_path: candidates.helper_path.clone(),
                electron_app_dir: candidates.electron_app_dir.clone(),
            },
        );
    }
    let app_dir = candidates.electron_app_dir.as_str();
    let dist = path_join(app_dir, "dist");
    let portable = path_join(dist.as_str(), WINDOWS_HELPER_EXE);
    let unpacked_dir = path_join(dist.as_str(), "win-unpacked");
    let unpacked = path_join(unpacked_dir.as_str(), WINDOWS_HELPER_EXE);
    let modules = path_join(app_dir, "node_modules");
    let bin = path_join(modules.as_str(), ".bin");
    let cmd = path_join(bin.as_str(), "electron.cmd");
    let legacy_helper = linux_path_to_windows_launch_path(
        candidates.helper_path.as_str(),
        distro,
    )?;
    let electron_portable = linux_path_to_windows_launch_path(portable.as_str(), distro)?;
    let electron_unpacked = linux_path_to_windows_launch_path(unpacked.as_str(), distro)?;
    let electron_cmd = linux_path_to_windows_launch_path(cmd.as_str(), distro)?;
    let electron_app_dir = linux_path_to_windows_launch_path(app_dir, distro)?;
    Ok(
        HelperLocations {
            legacy_helper,
            electron_app_dir,
            electron_portable,
            electron_unpacked,
            electron_cmd,
        },
    )
}

/// The PowerShell script that starts the first helper present, in the order
/// portable Electron build, unpacked Electron build, Electron from the
/// workspace, native helper.
pub open spec fn helper_script_for(
    legacy: Seq<char>,
    app_dir: Seq<char>,
    portable: Seq<char>,
    unpacked: Seq<char>,
    cmd: Seq<char>,
) -> Seq<char> {
    let l = pwsh_quoted(legacy);
    let a = pwsh_quoted(app_dir);
    let p = pwsh_quoted(portable);
    let u = pwsh_quoted(unpacked);
    let c = pwsh_quoted(cmd);
    "[Console]::InputEncoding = [System.Text.Encoding]::UTF8; if (Test-Path -LiteralPath "@ + p
        + ") { & "@ + p + " } elseif (Test-Path -LiteralPath "@ + u + ") { & "@ + u
        + " } elseif (Test-Path -LiteralPath "@ + c + ") { & "@ + c + " "@ + a + " } else { & "@
        + l + " }"@
}

/// A Windows path as a PowerShell string literal.
pub fn windows_path_literal(path: &str) -> (literal: String)
    ensures
        literal@ == pwsh_quoted(path@),
{
    pwsh_quote(path)
}

/// The launch script for the helper at `locations`.
pub fn resolve_helper_script(locations: &HelperLocations) -> (script: String)
    ensures
        script@ == helper_script_for(
            locations.legacy_helper@,
            locations.electron_app_dir@,
            locations.electron_portable@,
            locations.electron_unpacked@,
            locations.electron_cmd@,
        ),
{
    let l = windows_path_literal(locations.legacy_helper.as_str());
    let a = windows_path_literal(locations.electron_app_dir.as_str());
    let p = windows_path_literal(locations.electron_portable.as_str());
    let u = windows_path_literal(locations.electron_unpacked.as_str());
    let c = windows_path_literal(locations.electron_cmd.as_str());
    let mut v: Vec<char> = Vec::new();
    extend_str(
        &mut v,
        "[Console]::InputEncoding = [System.Text.Encoding]::UTF8; if (Test-Path -LiteralPath ",
    );
    extend_str(&mut v, p.as_str());
    extend_str(&mut v, ") { & ");
    extend_str(&mut v, p.as_str());
    extend_str(&mut v, " } elseif (Test-Path -LiteralPath ");
    extend_str(&mut v, u.as_str());
    extend_str(&mut v, ") { & ");
    extend_str(&mut v, u.as_str());
    extend_str(&mut v, " } elseif (Test-Path -LiteralPath ");
    extend_str(&mut v, c.as_str());
    extend_str(&mut v, ") { & ");
    extend_str(&mut v, c.as_str());
    extend_str(&mut v, " ");
    extend_str(&mut v, a.as_str());
    extend_str(&mut v, " } else { & ");
    extend_str(&mut v, l.as_str());
    extend_str(&mut v, " }");
    string_of(&v)
}

/// Whether the session runs under WSL: the distribution name is set, or the
/// kernel release names Microsoft (in any letter case).
pub open spec fn is_wsl_from(distro_name_set: bool, os_release: Option<Seq<char>>) -> bool {
    distro_name_set || match os_release {
        Some(r) => has_subseq(lower_seq(r), "microsoft"@),
        None => false,
    }
}

/// Decides whether the session runs under WSL from whether
/// `WSL_DISTRO_NAME` is set and the text of `/proc/sys/kernel/osrelease`,
/// when it could be read.
pub fn is_wsl(distro_name_set: bool, os_release: Option<&str>) -> (r: bool)
    ensures
        r == is_wsl_from(distro_name_set, opt_str_view(os_release)),
{
    if distro_name_set {
        return true;
    }
    match os_release {
        Some(release) => {
            let lowered = lower_chars(&chars_of(release));
            contains_chars(&lowered, &chars_of("microsoft"))
        },
        None => false,
    }
}

/// Two identical `Update` requests in a row send the snapshot once: the
/// second leaves the bridge as it was and sends nothing.
pub proof fn lemma_repeated_update_is_dropped(state: PetsBridgeView, s: PetsSnapshotView)
    ensures
        ({
            let (next, first) = bridge_step(state, PetsRequestView::Update(s));
            let (after, second) = bridge_step(next, PetsRequestView::Update(s));
            &&& second is None
            &&& after == next
            &&& next.last_snapshot == Some(s)
        }),
{
}

/// The bridge forwards every changed snapshot, and always for the pet it
/// was configured with: no request changes the configured pet or terminal.
pub proof fn lemma_configuration_is_kept(state: PetsBridgeView, request: PetsRequestView)
    ensures
        ({
            let (next, command) = bridge_step(state, request);
            &&& next.selected_pet == state.selected_pet
            &&& next.terminal_window_hint == state.terminal_window_hint
            &&& (command matches Some(HelperCommandView::SetSnapshot { snapshot }) ==> snapshot.pet
                == state.selected_pet)
            &&& (command matches Some(HelperCommandView::Show { pet, .. }) ==> pet
                == state.selected_pet)
        }),
{
}

/// A `Shutdown` request always yields the `Shutdown` command, and `Toggle`
/// never changes what the bridge remembers.
pub proof fn lemma_shutdown_and_toggle(state: PetsBridgeView)
    ensures
        bridge_step(state, PetsRequestView::Shutdown).1 == Some(HelperCommandView::Shutdown),
        bridge_step(state, PetsRequestView::Toggle).0 == state,
{
}

/// An update is dropped exactly when it equals, in every field (state,
/// title, subtitle, detail, notification count), the last snapshot sent.
/// Any other update becomes a `SetSnapshot` for the configured pet that
/// carries the update's state, title, subtitle and detail, and is then the
/// last snapshot sent; a dropped update changes nothing.
pub proof fn lemma_only_repeats_are_dropped(state: PetsBridgeView, s: PetsSnapshotView)
    ensures
        ({
            let (next, command) = bridge_step(state, PetsRequestView::Update(s));
            &&& (command is None <==> state.last_snapshot == Some(s))
            &&& (command is None ==> next == state)
            &&& (command is Some ==> {
                &&& command == Some(
                    HelperCommandView::SetSnapshot {
                        snapshot: HelperSnapshotView {
                            pet: state.selected_pet,
                            state: s.state,
                            title: s.title,
                            subtitle: s.subtitle,
                            detail: s.detail,
                        },
                    },
                )
                &&& next.last_snapshot == Some(s)
                &&& next.selected_pet == state.selected_pet
                &&& next.terminal_window_hint == state.terminal_window_hint
            })
        }),
{
}

/// `Toggle` shows the configured pet, with the terminal hint the bridge was
/// made with.
pub proof fn lemma_toggle_shows_configured_pet(state: PetsBridgeView)
    ensures
        bridge_step(state, PetsRequestView::Toggle).1 == Some(
            HelperCommandView::Show {
                pet: state.selected_pet,
                terminal_window_hint: state.terminal_window_hint,
            },
        ),
        bridge_step(state, PetsRequestView::Shutdown).0 == state,
{
}

} // verus!
