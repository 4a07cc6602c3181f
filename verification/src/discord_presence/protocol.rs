//! Messages exchanged with the Windows presence helper, one JSON object per
//! line. The wire encoding lives with the I/O; here are the values and their
//! mathematical views.
use vstd::prelude::*;

verus! {

/// A command from the bridge to the presence helper.
#[derive(Debug, Clone, PartialEq, Eq)]
pub enum HelperCommand {
    SetPresence {
        details: String,
        state: Option<String>,
        small_image: Option<String>,
        small_text: Option<String>,
        start_timestamp_seconds: u64,
    },
    ClearPresence,
    Shutdown,
}

/// A report from the presence helper.
#[derive(Debug, Clone, PartialEq, Eq)]
pub enum HelperEvent {
    Ready,
    Error { message: String },
}

/// The value a [`HelperCommand`] stands for.
pub enum HelperCommandView {
    SetPresence {
        details: Seq<char>,
        state: Option<Seq<char>>,
        small_image: Option<Seq<char>>,
        small_text: Option<Seq<char>>,
        start_timestamp_seconds: u64,
    },
    ClearPresence,
    Shutdown,
}

impl View for HelperCommand {
    type V = HelperCommandView;

    open spec fn view(&self) -> HelperCommandView {
        match self {
            HelperCommand::SetPresence {
                details,
                state,
                small_image,
                small_text,
                start_timestamp_seconds,
            } => HelperCommandView::SetPresence {
                details: details@,
                state: state.deep_view(),
                small_image: small_image.deep_view(),
                small_text: small_text.deep_view(),
                start_timestamp_seconds: *start_timestamp_seconds,
            },
            HelperCommand::ClearPresence => HelperCommandView::ClearPresence,
            HelperCommand::Shutdown => HelperCommandView::Shutdown,
        }
    }
}

impl HelperCommand {
    /// Whether this is the command after which the helper exits.
    pub fn is_shutdown(&self) -> (r: bool)
        ensures
            r == (self is Shutdown),
    {
        match self {
            HelperCommand::Shutdown => true,
            _ => false,
        }
    }
}

} // verus!
