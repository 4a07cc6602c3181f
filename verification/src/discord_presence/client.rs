//! The bridge from a WSL-hosted Codex session to Discord on Windows: which
//! command each presence update becomes, where the helper is looked for,
//! and the PowerShell script that launches it. Spawning the helper and
//! moving lines over its pipes is done by the caller.
use vstd::prelude::*;
use vstd::string::*;

use crate::discord_presence::protocol::{HelperCommand, HelperCommandView};
use crate::hostpath::{file_name_of, joined, parent_of, path_file_name, path_join, path_parent};
use crate::text::{chars_of, clone_opt, extend_str, opt_eq, string_of};
use crate::winpath::{mount_to_windows, pwsh_quoted};

pub use crate::winpath::pwsh_quote;
pub use crate::winpath::wsl_mount_to_windows_path;

verus! {

/// File name of the Windows presence helper.
pub const WINDOWS_HELPER_EXE: &'static str = "codex-discord-presence-windows.exe";

/// Target triple under which the Windows helper is built.
pub const WINDOWS_TARGET_TRIPLE: &'static str = "x86_64-pc-windows-msvc";

/// Configuration of Rich Presence for this session.
#[derive(Debug, Clone, PartialEq, Eq)]
pub struct DiscordPresenceRuntimeConfig {
    pub application_id: String,
    pub large_image: Option<String>,
    pub large_text: Option<String>,
}

/// What the session wants Discord to show.
#[derive(Debug, Clone, PartialEq, Eq)]
pub struct DiscordPresenceSnapshot {
    pub details: String,
    pub state: Option<String>,
    pub small_image: Option<String>,
    pub small_text: Option<String>,
}

/// The value a [`DiscordPresenceSnapshot`] stands for.
pub struct DiscordPresenceSnapshotView {
    pub details: Seq<char>,
    pub state: Option<Seq<char>>,
    pub small_image: Option<Seq<char>>,
    pub small_text: Option<Seq<char>>,
}

impl View for DiscordPresenceSnapshot {
    type V = DiscordPresenceSnapshotView;

    open spec fn view(&self) -> DiscordPresenceSnapshotView {
        DiscordPresenceSnapshotView {
            details: self.details@,
            state: self.state.deep_view(),
            small_image: self.small_image.deep_view(),
            small_text: self.small_text.deep_view(),
        }
    }
}

/// An optional snapshot seen through its view.
pub open spec fn snapshot_view(s: Option<DiscordPresenceSnapshot>) -> Option<
    DiscordPresenceSnapshotView,
> {
    match s {
        Some(s) => Some(s@),
        None => None,
    }
}

impl DiscordPresenceSnapshot {
    /// Snapshots compared by value.
    pub fn same_as(&self, other: &DiscordPresenceSnapshot) -> (r: bool)
        ensures
            r == (self@ == other@),
    {
        self.details == other.details && opt_eq(&self.state, &other.state) && opt_eq(
            &self.small_image,
            &other.small_image,
        ) && opt_eq(&self.small_text, &other.small_text)
    }
}

/// A request from the session to the bridge: show a snapshot (or clear the
/// presence with `None`), or stop.
pub enum PresenceRequest {
    Update(Option<DiscordPresenceSnapshot>),
    Shutdown,
}

/// The value a [`PresenceRequest`] stands for.
pub enum PresenceRequestView {
    Update(Option<DiscordPresenceSnapshotView>),
    Shutdown,
}

impl View for PresenceRequest {
    type V = PresenceRequestView;

    open spec fn view(&self) -> PresenceRequestView {
        match self {
            PresenceRequest::Update(s) => PresenceRequestView::Update(snapshot_view(*s)),
            PresenceRequest::Shutdown => PresenceRequestView::Shutdown,
        }
    }
}

/// The bridge's memory: when the session started, and the last update
/// forwarded (`None` both before any and after a clear).
pub struct PresenceBridge {
    session_started_at: u64,
    last_snapshot: Option<DiscordPresenceSnapshot>,
}

/// The value a [`PresenceBridge`] stands for.
pub struct PresenceBridgeView {
    pub session_started_at: u64,
    pub last_snapshot: Option<DiscordPresenceSnapshotView>,
}

impl View for PresenceBridge {
    type V = PresenceBridgeView;

    closed spec fn view(&self) -> PresenceBridgeView {
        PresenceBridgeView {
            session_started_at: self.session_started_at,
            last_snapshot: snapshot_view(self.last_snapshot),
        }
    }
}

/// An optional command seen through its view.
pub open spec fn command_view(c: Option<HelperCommand>) -> Option<HelperCommandView> {
    match c {
        Some(c) => Some(c@),
        None => None,
    }
}

/// One step of the bridge: the next state, and the command to send, if any.
/// An update equal to the last one forwarded (and so a clear before any
/// presence was set) is dropped; a snapshot becomes `SetPresence` stamped
/// with the session start, `None` becomes `ClearPresence`.
pub open spec fn bridge_step(state: PresenceBridgeView, request: PresenceRequestView) -> (
    PresenceBridgeView,
    Option<HelperCommandView>,
) {
    match request {
        PresenceRequestView::Update(s) => {
            if s == state.last_snapshot {
                (state, None)
            } else {
                (
                    PresenceBridgeView { last_snapshot: s, ..state },
                    Some(
                        match s {
                            Some(x) => HelperCommandView::SetPresence {
                                details: x.details,
                                state: x.state,
                                small_image: x.small_image,
                                small_text: x.small_text,
                                start_timestamp_seconds: state.session_started_at,
                            },
                            None => HelperCommandView::ClearPresence,
                        },
                    ),
                )
            }
        },
        PresenceRequestView::Shutdown => (state, Some(HelperCommandView::Shutdown)),
    }
}

impl PresenceBridge {
    /// A bridge for a session that started `session_started_at` seconds after
    /// the Unix epoch and has forwarded nothing yet.
    pub fn new(session_started_at: u64) -> (b: PresenceBridge)
        ensures
            b@ == (PresenceBridgeView { session_started_at, last_snapshot: None }),
    {
        PresenceBridge { session_started_at, last_snapshot: None }
    }

    /// Handles one request; the command returned is written to the helper,
    /// and after a `Shutdown` command the bridge stops.
    pub fn handle(&mut self, request: PresenceRequest) -> (command: Option<HelperCommand>)
        ensures
            (final(self)@, command_view(command)) == bridge_step(old(self)@, request@),
    {
        match request {
            PresenceRequest::Update(snapshot) => {
                let repeated = match (&snapshot, &self.last_snapshot) {
                    (Some(s), Some(last)) => s.same_as(last),
                    (None, None) => true,
                    _ => false,
                };
                if repeated {
                    return None;
                }
                let command = match &snapshot {
                    Some(s) => HelperCommand::SetPresence {
                        details: s.details.clone(),
                        state: clone_opt(&s.state),
                        small_image: clone_opt(&s.small_image),
                        small_text: clone_opt(&s.small_text),
                        start_timestamp_seconds: self.session_started_at,
                    },
                    None => HelperCommand::ClearPresence,
                };
                self.last_snapshot = snapshot;
                Some(command)
            },
            PresenceRequest::Shutdown => Some(HelperCommand::Shutdown),
        }
    }
}

/// Two identical updates in a row forward the first only: the second
/// leaves the bridge as it was and sends nothing.
pub proof fn lemma_repeated_update_is_dropped(
    state: PresenceBridgeView,
    s: Option<DiscordPresenceSnapshotView>,
)
    ensures
        ({
            let (next, _) = bridge_step(state, PresenceRequestView::Update(s));
            let (after, second) = bridge_step(next, PresenceRequestView::Update(s));
            &&& second is None
            &&& after == next
        }),
{
}

/// Every presence the bridge sets carries the session's start time, and no
/// request changes it.
pub proof fn lemma_start_time_is_kept(state: PresenceBridgeView, request: PresenceRequestView)
    ensures
        ({
            let (next, command) = bridge_step(state, request);
            &&& next.session_started_at == state.session_started_at
            &&& (command matches Some(
                HelperCommandView::SetPresence { start_timestamp_seconds, .. },
            ) ==> start_timestamp_seconds == state.session_started_at)
        }),
{
}

/// A bridge that has set nothing sends nothing for a clear, and a
/// `Shutdown` request always yields the `Shutdown` command.
pub proof fn lemma_initial_clear_and_shutdown(started: u64, state: PresenceBridgeView)
    ensures
        bridge_step(
            PresenceBridgeView { session_started_at: started, last_snapshot: None },
            PresenceRequestView::Update(None),
        ).1 is None,
        bridge_step(state, PresenceRequestView::Shutdown).1 == Some(HelperCommandView::Shutdown),
{
}

/// An update is dropped exactly when it equals, in every field (details,
/// state, small image, small text), the last one forwarded, or is a clear
/// when nothing is shown. Any other update is forwarded and becomes the
/// last one: a snapshot as a `SetPresence` carrying its fields and the
/// session's start time, `None` as a `ClearPresence`.
pub proof fn lemma_only_repeats_are_dropped(
    state: PresenceBridgeView,
    s: Option<DiscordPresenceSnapshotView>,
)
    ensures
        ({
            let (next, command) = bridge_step(state, PresenceRequestView::Update(s));
            &&& (command is None <==> s == state.last_snapshot)
            &&& (command is None ==> next == state)
            &&& (command is Some ==> {
                &&& next.last_snapshot == s
                &&& next.session_started_at == state.session_started_at
                &&& (s matches Some(x) ==> command == Some(
                    HelperCommandView::SetPresence {
                        details: x.details,
                        state: x.state,
                        small_image: x.small_image,
                        small_text: x.small_text,
                        start_timestamp_seconds: state.session_started_at,
                    },
                ))
                &&& (s is None ==> command == Some(HelperCommandView::ClearPresence))
            })
        }),
{
}

/// `Shutdown` leaves the bridge as it was.
pub proof fn lemma_shutdown_keeps_state(state: PresenceBridgeView)
    ensures
        bridge_step(state, PresenceRequestView::Shutdown).0 == state,
{
}

/// Why the presence helper could not be located.
pub enum HelperLookupError {
    ExeUnavailable,
    NoParentDirectory,
    NoProfileName,
    NoTargetDirectory,
    NotFound { helper_path: String },
    DistroNameUnset,
}

impl HelperLookupError {
    /// The text of the error, as the session reports it.
    pub fn message(&self) -> (m: String)
        ensures
            m@ == match self {
                HelperLookupError::ExeUnavailable =>
                    "Codex executable path is unavailable for Discord presence helper lookup"@,
                HelperLookupError::NoParentDirectory =>
                    "Codex executable path has no parent directory"@,
                HelperLookupError::NoProfileName =>
                    "failed to derive build profile from Codex executable path"@,
                HelperLookupError::NoTargetDirectory =>
                    "failed to derive target directory from Codex executable path"@,
                HelperLookupError::NotFound { helper_path } =>
                    "Discord presence helper was not found at "@ + helper_path@,
                HelperLookupError::DistroNameUnset =>
                    "WSL_DISTRO_NAME is not set; cannot construct Windows path for helper"@,
            },
    {
        match self {
            HelperLookupError::ExeUnavailable => String::from_str(
                "Codex executable path is unavailable for Discord presence helper lookup",
            ),
            HelperLookupError::NoParentDirectory => String::from_str(
                "Codex executable path has no parent directory",
            ),
            HelperLookupError::NoProfileName => String::from_str(
                "failed to derive build profile from Codex executable path",
            ),
            HelperLookupError::NoTargetDirectory => String::from_str(
                "failed to derive target directory from Codex executable path",
            ),
            HelperLookupError::NotFound { helper_path } => {
                let mut v: Vec<char> = Vec::new();
                extend_str(&mut v, "Discord presence helper was not found at ");
                extend_str(&mut v, helper_path.as_str());
                string_of(&v)
            },
            HelperLookupError::DistroNameUnset => String::from_str(
                "WSL_DISTRO_NAME is not set; cannot construct Windows path for helper",
            ),
        }
    }
}

/// Where the presence helper lies for the Codex executable `exe`, or the
/// step of the lookup that failed: the profile directory is the parent of
/// `exe` and names the build profile, and the target directory is its parent.
pub open spec fn helper_path_for(exe: Option<Seq<char>>) -> Result<Seq<char>, int> {
    match exe {
        None => Err(0),
        Some(exe) => match parent_of(exe) {
            None => Err(1),
            Some(profile_dir) => match file_name_of(profile_dir) {
                None => Err(2),
                Some(profile_name) => match parent_of(profile_dir) {
                    None => Err(3),
                    Some(target_dir) => Ok(
                        joined(
                            joined(joined(target_dir, WINDOWS_TARGET_TRIPLE@), profile_name),
                            WINDOWS_HELPER_EXE@,
                        ),
                    ),
                },
            },
        },
    }
}

/// The failure a step number of [`helper_path_for`] stands for.
pub open spec fn lookup_step_error(e: HelperLookupError, step: int) -> bool {
    match e {
        HelperLookupError::ExeUnavailable => step == 0,
        HelperLookupError::NoParentDirectory => step == 1,
        HelperLookupError::NoProfileName => step == 2,
        HelperLookupError::NoTargetDirectory => step == 3,
        _ => false,
    }
}

/// An optional string slice seen as characters.
pub open spec fn opt_str_view(s: Option<&str>) -> Option<Seq<char>> {
    match s {
        Some(s) => Some(s@),
        None => None,
    }
}

/// Computes where the presence helper should be for the Codex executable at
/// `codex_self_exe` (`None` when that path is unknown).
pub fn helper_candidate(codex_self_exe: Option<&str>) -> (r: Result<String, HelperLookupError>)
    ensures
        match (r, helper_path_for(opt_str_view(codex_self_exe))) {
            (Ok(p), Ok(q)) => p@ == q,
            (Err(e), Err(step)) => lookup_step_error(e, step),
            _ => false,
        },
{
    let exe = match codex_self_exe {
        Some(exe) => exe,
        None => return Err(HelperLookupError::ExeUnavailable),
    };
    let profile_dir = match path_parent(exe) {
        Some(p) => p,
        None => return Err(HelperLookupError::NoParentDirectory),
    };
    let profile_name = match path_file_name(profile_dir.as_str()) {
        Some(n) => n,
        None => return Err(HelperLookupError::NoProfileName),
    };
    let target_dir = match path_parent(profile_dir.as_str()) {
        Some(t) => t,
        None => return Err(HelperLookupError::NoTargetDirectory),
    };
    let triple_dir = path_join(target_dir.as_str(), WINDOWS_TARGET_TRIPLE);
    let profile_out = path_join(triple_dir.as_str(), profile_name.as_str());
    Ok(path_join(profile_out.as_str(), WINDOWS_HELPER_EXE))
}

/// `//wsl.localhost/<distro><path>`: a Linux path seen from Windows through
/// the WSL network share.
pub open spec fn localhost_path(path: Seq<char>, distro: Seq<char>) -> Seq<char> {
    "//wsl.localhost/"@ + distro + path
}

/// The Windows path to launch the Linux file at `path` by: its drive path
/// when it lies on a mounted drive, else its `//wsl.localhost` path in
/// distribution `distro`; with no distribution name, no path.
pub open spec fn launch_path_for(path: Seq<char>, distro: Option<Seq<char>>) -> Option<Seq<char>> {
    match mount_to_windows(path) {
        Some(m) => Some(m),
        None => match distro {
            Some(d) => Some(localhost_path(path, d)),
            None => None,
        },
    }
}

/// The path of `path` on the `//wsl.localhost` share of `distro`.
pub fn wsl_localhost_launch_path(path: &str, distro: &str) -> (r: String)
    ensures
        r@ == localhost_path(path@, distro@),
{
    let mut out: Vec<char> = Vec::new();
    extend_str(&mut out, "//wsl.localhost/");
    extend_str(&mut out, distro);
    extend_str(&mut out, path);
    string_of(&out)
}

/// The path Windows launches the Linux file at `path` by; `distro` is the
/// WSL distribution name, when the environment gives one.
pub fn linux_path_to_windows_launch_path(path: &str, distro: Option<&str>) -> (r: Result<
    String,
    HelperLookupError,
>)
    ensures
        match r {
            Ok(p) => launch_path_for(path@, opt_str_view(distro)) == Some(p@),
            Err(e) => launch_path_for(path@, opt_str_view(distro)) is None && e is DistroNameUnset,
        },
{
    match wsl_mount_to_windows_path(path) {
        Some(mapped) => Ok(mapped),
        None => match distro {
            Some(d) => Ok(wsl_localhost_launch_path(path, d)),
            None => Err(HelperLookupError::DistroNameUnset),
        },
    }
}

/// Given the helper's Linux path and whether it exists, the path Windows
/// launches it by.
pub fn resolve_helper_path(helper_path: &str, helper_exists: bool, distro: Option<&str>) -> (r:
    Result<String, HelperLookupError>)
    ensures
        !helper_exists ==> (r matches Err(HelperLookupError::NotFound { helper_path: p })
            && p@ == helper_path@),
        helper_exists ==> match r {
            Ok(p) => launch_path_for(helper_path@, opt_str_view(distro)) == Some(p@),
            Err(e) => launch_path_for(helper_path@, opt_str_view(distro)) is None
                && e is DistroNameUnset,
        },
{
    if !helper_exists {
        return Err(HelperLookupError::NotFound { helper_path: String::from_str(helper_path) });
    }
    linux_path_to_windows_launch_path(helper_path, distro)
}

/// The PowerShell script that starts the helper at Windows path `helper`
/// for `config`: the application id always, the large image and text
/// when configured, each value quoted.
pub open spec fn helper_script_for(
    helper: Seq<char>,
    application_id: Seq<char>,
    large_image: Option<Seq<char>>,
    large_text: Option<Seq<char>>,
) -> Seq<char> {
    "[Console]::InputEncoding = [System.Text.Encoding]::UTF8; & "@ + pwsh_quoted(helper)
        + " --application-id "@ + pwsh_quoted(application_id) + match large_image {
        Some(i) => " --large-image "@ + pwsh_quoted(i),
        None => Seq::empty(),
    } + match large_text {
        Some(t) => " --large-text "@ + pwsh_quoted(t),
        None => Seq::empty(),
    }
}

/// The launch script for the helper at Windows path `helper_path`.
pub fn helper_script(helper_path: &str, config: &DiscordPresenceRuntimeConfig) -> (script: String)
    ensures
        script@ == helper_script_for(
            helper_path@,
            config.application_id@,
            config.large_image.deep_view(),
            config.large_text.deep_view(),
        ),
{
    let application_id = pwsh_quote(config.application_id.as_str());
    let helper = pwsh_quote(helper_path);
    let mut v: Vec<char> = Vec::new();
    extend_str(&mut v, "[Console]::InputEncoding = [System.Text.Encoding]::UTF8; & ");
    extend_str(&mut v, helper.as_str());
    extend_str(&mut v, " --application-id ");
    extend_str(&mut v, application_id.as_str());
    let ghost base = v@;
    match &config.large_image {
        Some(large_image) => {
            let q = pwsh_quote(large_image.as_str());
            extend_str(&mut v, " --large-image ");
            extend_str(&mut v, q.as_str());
        },
        None => {},
    }
    let ghost with_image = v@;
    match &config.large_text {
        Some(large_text) => {
            let q = pwsh_quote(large_text.as_str());
            extend_str(&mut v, " --large-text ");
            extend_str(&mut v, q.as_str());
        },
        None => {},
    }
    proof {
        if config.large_image is None {
            assert(with_image == base + Seq::<char>::empty());
        }
        if config.large_text is None {
            assert(v@ == with_image + Seq::<char>::empty());
        }
    }
    string_of(&v)
}

} // verus!
