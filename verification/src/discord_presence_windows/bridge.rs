//! The activity the helper hands to Discord for each command, and the calls
//! into the SDK client that each command and each idle tick become.
use vstd::prelude::*;
use vstd::utf8::encode_utf8;

use crate::discord_presence::protocol::{HelperCommand, HelperCommandView};
use crate::discord_presence_windows::ffi::DiscordOwnedString;
use crate::pets::client::opt_str_view;

verus! {

/// The UTF-8 bytes of an optional text.
pub open spec fn encoded(value: Option<Seq<char>>) -> Option<Seq<u8>> {
    match value {
        Some(s) => Some(encode_utf8(s)),
        None => None,
    }
}

/// The bytes an optional owned string holds.
pub open spec fn owned_view(value: Option<DiscordOwnedString>) -> Option<Seq<u8>> {
    match value {
        Some(s) => Some(s.bytes@),
        None => None,
    }
}

fn own_opt(value: Option<&str>) -> (r: Option<DiscordOwnedString>)
    ensures
        owned_view(r) == encoded(opt_str_view(value)),
{
    match value {
        Some(s) => Some(DiscordOwnedString::new(s)),
        None => None,
    }
}

/// The kind of activity shown; the helper only ever plays.
#[derive(Debug, Clone, Copy, PartialEq, Eq)]
pub enum DiscordActivityTypes {
    Playing,
}

/// Which field Discord shows in the status line.
#[derive(Debug, Clone, Copy, PartialEq, Eq)]
pub enum DiscordStatusDisplayTypes {
    Details,
}

/// The images and texts of an activity, each as the bytes handed to the SDK.
pub struct DiscordPresenceAssets {
    pub large_image: Option<DiscordOwnedString>,
    pub large_text: Option<DiscordOwnedString>,
    pub small_image: Option<DiscordOwnedString>,
    pub small_text: Option<DiscordOwnedString>,
}

/// The value of a [`DiscordPresenceAssets`].
pub struct AssetsView {
    pub large_image: Option<Seq<u8>>,
    pub large_text: Option<Seq<u8>>,
    pub small_image: Option<Seq<u8>>,
    pub small_text: Option<Seq<u8>>,
}

impl View for DiscordPresenceAssets {
    type V = AssetsView;

    open spec fn view(&self) -> AssetsView {
        AssetsView {
            large_image: owned_view(self.large_image),
            large_text: owned_view(self.large_text),
            small_image: owned_view(self.small_image),
            small_text: owned_view(self.small_text),
        }
    }
}

impl DiscordPresenceAssets {
    /// Assets holding the UTF-8 bytes of each text that is given.
    pub fn new(
        large_image: Option<&str>,
        large_text: Option<&str>,
        small_image: Option<&str>,
        small_text: Option<&str>,
    ) -> (assets: DiscordPresenceAssets)
        ensures
            assets@ == (AssetsView {
                large_image: encoded(opt_str_view(large_image)),
                large_text: encoded(opt_str_view(large_text)),
                small_image: encoded(opt_str_view(small_image)),
                small_text: encoded(opt_str_view(small_text)),
            }),
    {
        DiscordPresenceAssets {
            large_image: own_opt(large_image),
            large_text: own_opt(large_text),
            small_image: own_opt(small_image),
            small_text: own_opt(small_text),
        }
    }
}

/// An activity as it is handed to the SDK.
pub struct DiscordPresenceActivity {
    pub activity_type: DiscordActivityTypes,
    pub status_display_type: DiscordStatusDisplayTypes,
    pub details: DiscordOwnedString,
    pub state: Option<DiscordOwnedString>,
    pub start_timestamp_seconds: u64,
    pub assets: Option<DiscordPresenceAssets>,
}

/// The value of a [`DiscordPresenceActivity`].
pub struct ActivityView {
    pub activity_type: DiscordActivityTypes,
    pub status_display_type: DiscordStatusDisplayTypes,
    pub details: Seq<u8>,
    pub state: Option<Seq<u8>>,
    pub start_timestamp_seconds: u64,
    pub assets: Option<AssetsView>,
}

impl View for DiscordPresenceActivity {
    type V = ActivityView;

    open spec fn view(&self) -> ActivityView {
        ActivityView {
            activity_type: self.activity_type,
            status_display_type: self.status_display_type,
            details: self.details.bytes@,
            state: owned_view(self.state),
            start_timestamp_seconds: self.start_timestamp_seconds,
            assets: match self.assets {
                Some(a) => Some(a@),
                None => None,
            },
        }
    }
}

/// The activity shown for a presence update: a game being played, with the
/// details in the status line, the state where given, the start time, and
/// assets only where an image or a small text is given (never a large text).
pub open spec fn activity_for(
    details: Seq<char>,
    state: Option<Seq<char>>,
    small_image: Option<Seq<char>>,
    small_text: Option<Seq<char>>,
    start_timestamp_seconds: u64,
    large_image: Option<Seq<char>>,
) -> ActivityView {
    ActivityView {
        activity_type: DiscordActivityTypes::Playing,
        status_display_type: DiscordStatusDisplayTypes::Details,
        details: encode_utf8(details),
        state: encoded(state),
        start_timestamp_seconds,
        assets: if large_image is Some || small_image is Some || small_text is Some {
            Some(
                AssetsView {
                    large_image: encoded(large_image),
                    large_text: None,
                    small_image: encoded(small_image),
                    small_text: encoded(small_text),
                },
            )
        } else {
            None
        },
    }
}

impl DiscordPresenceActivity {
    /// The activity for a presence update.
    pub fn new(
        details: &str,
        state: Option<&str>,
        small_image: Option<&str>,
        small_text: Option<&str>,
        start_timestamp_seconds: u64,
        large_image: Option<&str>,
    ) -> (activity: DiscordPresenceActivity)
        ensures
            activity@ == activity_for(
                details@,
                opt_str_view(state),
                opt_str_view(small_image),
                opt_str_view(small_text),
                start_timestamp_seconds,
                opt_str_view(large_image),
            ),
    {
        let details_owned = DiscordOwnedString::new(details);
        let state_owned = own_opt(state);
        let assets = if large_image.is_some() || small_image.is_some() || small_text.is_some() {
            Some(DiscordPresenceAssets::new(large_image, None, small_image, small_text))
        } else {
            None
        };
        DiscordPresenceActivity {
            activity_type: DiscordActivityTypes::Playing,
            status_display_type: DiscordStatusDisplayTypes::Details,
            details: details_owned,
            state: state_owned,
            start_timestamp_seconds,
            assets,
        }
    }
}

/// A call into the SDK client, in the order the helper makes them.
#[derive(Debug, Clone, Copy, PartialEq, Eq)]
pub enum ClientCall {
    SetApplicationId(u64),
    /// Show the bridge's current activity.
    UpdateRichPresence,
    ClearRichPresence,
    RunCallbacks,
}

/// The helper's side of the SDK client: the activity being shown, if any.
pub struct DiscordPresenceBridge {
    current_activity: Option<DiscordPresenceActivity>,
}

impl View for DiscordPresenceBridge {
    type V = Option<ActivityView>;

    closed spec fn view(&self) -> Option<ActivityView> {
        match self.current_activity {
            Some(a) => Some(a@),
            None => None,
        }
    }
}

/// What reaches the helper's loop: a command read from its input, a quiet
/// interval, or the end of its input.
pub enum HelperInput {
    Command(HelperCommand),
    Timeout,
    Disconnected,
}

/// The value of a [`HelperInput`].
pub enum HelperInputView {
    Command(HelperCommandView),
    Timeout,
    Disconnected,
}

impl View for HelperInput {
    type V = HelperInputView;

    open spec fn view(&self) -> HelperInputView {
        match self {
            HelperInput::Command(c) => HelperInputView::Command(c@),
            HelperInput::Timeout => HelperInputView::Timeout,
            HelperInput::Disconnected => HelperInputView::Disconnected,
        }
    }
}

/// The calls to make for one input, and whether the helper exits after them.
pub struct HelperStep {
    pub calls: Vec<ClientCall>,
    pub finished: bool,
}

/// Clearing the presence: the activity is dropped, the SDK is told, and its
/// callbacks run.
pub open spec fn clear_calls() -> Seq<ClientCall> {
    seq![ClientCall::ClearRichPresence, ClientCall::RunCallbacks]
}

/// One turn of the helper's loop from the shown activity `shown`: the
/// activity shown after it, the calls made, and whether the helper exits.
/// Leaving the loop, by a shutdown command or the end of input, clears the
/// presence.
pub open spec fn helper_step(
    shown: Option<ActivityView>,
    input: HelperInputView,
    large_image: Option<Seq<char>>,
) -> (Option<ActivityView>, Seq<ClientCall>, bool) {
    match input {
        HelperInputView::Command(HelperCommandView::SetPresence {
            details,
            state,
            small_image,
            small_text,
            start_timestamp_seconds,
        }) => (
            Some(
                activity_for(
                    details,
                    state,
                    small_image,
                    small_text,
                    start_timestamp_seconds,
                    large_image,
                ),
            ),
            seq![ClientCall::UpdateRichPresence, ClientCall::RunCallbacks],
            false,
        ),
        HelperInputView::Command(HelperCommandView::ClearPresence) => (None, clear_calls(), false),
        HelperInputView::Command(HelperCommandView::Shutdown) => (None, clear_calls(), true),
        HelperInputView::Timeout => (shown, seq![ClientCall::RunCallbacks], false),
        HelperInputView::Disconnected => (None, clear_calls(), true),
    }
}

impl DiscordPresenceBridge {
    /// A bridge showing nothing, and the call that configures the client.
    pub fn new(application_id: u64) -> (r: (DiscordPresenceBridge, Vec<ClientCall>))
        ensures
            r.0@ is None,
            r.1@ == seq![ClientCall::SetApplicationId(application_id)],
    {
        (DiscordPresenceBridge { current_activity: None }, vec![ClientCall::SetApplicationId(application_id)])
    }

    /// The activity being shown.
    pub fn current_activity(&self) -> (a: &Option<DiscordPresenceActivity>)
        ensures
            self@ == match *a {
                Some(x) => Some(x@),
                None => None,
            },
    {
        &self.current_activity
    }

    /// Shows a new activity: the SDK is given it and its callbacks run.
    pub fn set_presence(
        &mut self,
        details: &str,
        state: Option<&str>,
        small_image: Option<&str>,
        small_text: Option<&str>,
        start_timestamp_seconds: u64,
        large_image: Option<&str>,
    ) -> (calls: Vec<ClientCall>)
        ensures
            final(self)@ == Some(
                activity_for(
                    details@,
                    opt_str_view(state),
                    opt_str_view(small_image),
                    opt_str_view(small_text),
                    start_timestamp_seconds,
                    opt_str_view(large_image),
                ),
            ),
            calls@ == seq![ClientCall::UpdateRichPresence, ClientCall::RunCallbacks],
    {
        let activity = DiscordPresenceActivity::new(
            details,
            state,
            small_image,
            small_text,
            start_timestamp_seconds,
            large_image,
        );
        self.current_activity = Some(activity);
        vec![ClientCall::UpdateRichPresence, ClientCall::RunCallbacks]
    }

    /// Drops the activity and clears the presence.
    pub fn clear_presence(&mut self) -> (calls: Vec<ClientCall>)
        ensures
            final(self)@ is None,
            calls@ == clear_calls(),
    {
        self.current_activity = None;
        vec![ClientCall::ClearRichPresence, ClientCall::RunCallbacks]
    }

    /// Lets the SDK run its callbacks; nothing else changes.
    pub fn run_callbacks(&self) -> (calls: Vec<ClientCall>)
        ensures
            calls@ == seq![ClientCall::RunCallbacks],
    {
        vec![ClientCall::RunCallbacks]
    }

    /// One turn of the helper's loop; `large_image` is the image configured
    /// on the command line.
    pub fn handle(&mut self, input: HelperInput, large_image: Option<&str>) -> (step: HelperStep)
        ensures
            (final(self)@, step.calls@, step.finished) == helper_step(
                old(self)@,
                input@,
                opt_str_view(large_image),
            ),
    {
        match input {
            HelperInput::Command(HelperCommand::SetPresence {
                details,
                state,
                small_image,
                small_text,
                start_timestamp_seconds,
            }) => {
                let calls = self.set_presence(
                    details.as_str(),
                    opt_as_str(&state),
                    opt_as_str(&small_image),
                    opt_as_str(&small_text),
                    start_timestamp_seconds,
                    large_image,
                );
                HelperStep { calls, finished: false }
            },
            HelperInput::Command(HelperCommand::ClearPresence) => {
                let calls = self.clear_presence();
                HelperStep { calls, finished: false }
            },
            HelperInput::Command(HelperCommand::Shutdown) | HelperInput::Disconnected => {
                let calls = self.clear_presence();
                HelperStep { calls, finished: true }
            },
            HelperInput::Timeout => {
                let calls = self.run_callbacks();
                HelperStep { calls, finished: false }
            },
        }
    }
}

fn opt_as_str(value: &Option<String>) -> (r: Option<&str>)
    ensures
        opt_str_view(r) == value.deep_view(),
{
    match value {
        Some(s) => Some(s.as_str()),
        None => None,
    }
}

/// Whatever was shown, a turn that ends the helper leaves nothing shown, and
/// its last calls clear the presence and run the callbacks.
pub proof fn lemma_exit_clears_presence(
    shown: Option<ActivityView>,
    input: HelperInputView,
    large_image: Option<Seq<char>>,
)
    ensures
        helper_step(shown, input, large_image).2 ==> {
            &&& helper_step(shown, input, large_image).0 is None
            &&& helper_step(shown, input, large_image).1 == clear_calls()
        },
{
}

/// A quiet interval only runs the callbacks and keeps what is shown.
pub proof fn lemma_idle_keeps_presence(shown: Option<ActivityView>, large_image: Option<Seq<char>>)
    ensures
        helper_step(shown, HelperInputView::Timeout, large_image) == (
            shown,
            seq![ClientCall::RunCallbacks],
            false,
        ),
{
}

/// An activity carries assets exactly when an image or a small text is
/// given, and never a large text.
pub proof fn lemma_assets_only_with_images(
    details: Seq<char>,
    state: Option<Seq<char>>,
    small_image: Option<Seq<char>>,
    small_text: Option<Seq<char>>,
    start_timestamp_seconds: u64,
    large_image: Option<Seq<char>>,
)
    ensures
        ({
            let a = activity_for(
                details,
                state,
                small_image,
                small_text,
                start_timestamp_seconds,
                large_image,
            );
            &&& (a.assets is Some <==> (large_image is Some || small_image is Some
                || small_text is Some))
            &&& (a.assets matches Some(x) ==> x.large_text is None)
        }),
{
}

/// After an update the activity shown is the one for that update, whatever
/// was shown before: a later update fully replaces an earlier one.
pub proof fn lemma_update_replaces(
    shown: Option<ActivityView>,
    command: HelperCommandView,
    large_image: Option<Seq<char>>,
)
    requires
        command is SetPresence,
    ensures
        helper_step(shown, HelperInputView::Command(command), large_image).0
            == helper_step(None, HelperInputView::Command(command), large_image).0,
        helper_step(shown, HelperInputView::Command(command), large_image).0 is Some,
{
}

/// The activity plays, shows its details in the status line, and carries
/// the UTF-8 bytes of the details, of the state when given, and the start
/// time. Whenever it has assets, each of its large image, small image and
/// small text is the UTF-8 encoding of the one given, independently of the
/// others.
pub proof fn lemma_activity_carries_every_text(
    details: Seq<char>,
    state: Option<Seq<char>>,
    small_image: Option<Seq<char>>,
    small_text: Option<Seq<char>>,
    start_timestamp_seconds: u64,
    large_image: Option<Seq<char>>,
)
    ensures
        ({
            let a = activity_for(
                details,
                state,
                small_image,
                small_text,
                start_timestamp_seconds,
                large_image,
            );
            &&& a.activity_type == DiscordActivityTypes::Playing
            &&& a.status_display_type == DiscordStatusDisplayTypes::Details
            &&& a.details == encode_utf8(details)
            &&& a.state == match state {
                Some(t) => Some(encode_utf8(t)),
                None => None,
            }
            &&& a.start_timestamp_seconds == start_timestamp_seconds
            &&& (a.assets matches Some(x) ==> {
                &&& x.large_image == match large_image {
                    Some(t) => Some(encode_utf8(t)),
                    None => None,
                }
                &&& x.small_image == match small_image {
                    Some(t) => Some(encode_utf8(t)),
                    None => None,
                }
                &&& x.small_text == match small_text {
                    Some(t) => Some(encode_utf8(t)),
                    None => None,
                }
            })
        }),
{
}

/// A presence command shows exactly the activity made from its fields and
/// the configured large image, then updates the presence and runs the
/// callbacks; a clear command shows nothing and clears the presence. Neither
/// ends the helper.
pub proof fn lemma_commands_set_and_clear(
    shown: Option<ActivityView>,
    details: Seq<char>,
    state: Option<Seq<char>>,
    small_image: Option<Seq<char>>,
    small_text: Option<Seq<char>>,
    start_timestamp_seconds: u64,
    large_image: Option<Seq<char>>,
)
    ensures
        ({
            let command = HelperCommandView::SetPresence {
                details,
                state,
                small_image,
                small_text,
                start_timestamp_seconds,
            };
            let (next, calls, finished) = helper_step(
                shown,
                HelperInputView::Command(command),
                large_image,
            );
            &&& next == Some(
                activity_for(
                    details,
                    state,
                    small_image,
                    small_text,
                    start_timestamp_seconds,
                    large_image,
                ),
            )
            &&& calls == seq![ClientCall::UpdateRichPresence, ClientCall::RunCallbacks]
            &&& !finished
        }),
        ({
            let (next, calls, finished) = helper_step(
                shown,
                HelperInputView::Command(HelperCommandView::ClearPresence),
                large_image,
            );
            &&& next is None
            &&& calls == seq![ClientCall::ClearRichPresence, ClientCall::RunCallbacks]
            &&& !finished
        }),
{
}

} // verus!
