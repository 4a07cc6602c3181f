//! Messages exchanged with the Windows pet overlay helper, one JSON object
//! per line. The wire encoding lives with the I/O; here are the values and
//! their mathematical views.
use vstd::prelude::*;

verus! {

/// What the pet is doing, which selects its animation.
#[derive(Debug, Clone, Copy, PartialEq, Eq, Structural)]
pub enum PetState {
    Idle,
    Running,
    Waiting,
    Review,
    Failed,
}

/// The activity card and pet shown by the overlay.
#[derive(Debug, Clone, PartialEq, Eq)]
pub struct HelperSnapshot {
    pub pet: String,
    pub state: PetState,
    pub title: String,
    pub subtitle: Option<String>,
    pub detail: Option<String>,
}

/// A command from the bridge to the overlay helper.
#[derive(Debug, Clone, PartialEq, Eq)]
pub enum HelperCommand {
    Show { pet: String, terminal_window_hint: Option<String> },
    Hide,
    SetSnapshot { snapshot: HelperSnapshot },
    Shutdown,
}

/// A report from the overlay helper.
#[derive(Debug, Clone, PartialEq, Eq)]
pub enum HelperEvent {
    Ready,
    Hidden,
    Error { message: String },
}

/// The value a [`HelperSnapshot`] stands for.
pub struct HelperSnapshotView {
    pub pet: Seq<char>,
    pub state: PetState,
    pub title: Seq<char>,
    pub subtitle: Option<Seq<char>>,
    pub detail: Option<Seq<char>>,
}

/// The value a [`HelperCommand`] stands for.
pub enum HelperCommandView {
    Show { pet: Seq<char>, terminal_window_hint: Option<Seq<char>> },
    Hide,
    SetSnapshot { snapshot: HelperSnapshotView },
    Shutdown,
}

impl View for HelperSnapshot {
    type V = HelperSnapshotView;

    open spec fn view(&self) -> HelperSnapshotView {
        HelperSnapshotView {
            pet: self.pet@,
            state: self.state,
            title: self.title@,
            subtitle: self.subtitle.deep_view(),
            detail: self.detail.deep_view(),
        }
    }
}

impl View for HelperCommand {
    type V = HelperCommandView;

    open spec fn view(&self) -> HelperCommandView {
        match self {
            HelperCommand::Show { pet, terminal_window_hint } => HelperCommandView::Show {
                pet: pet@,
                terminal_window_hint: terminal_window_hint.deep_view(),
            },
            HelperCommand::Hide => HelperCommandView::Hide,
            HelperCommand::SetSnapshot { snapshot } => HelperCommandView::SetSnapshot {
                snapshot: snapshot@,
            },
            HelperCommand::Shutdown => HelperCommandView::Shutdown,
        }
    }
}

impl HelperCommand {
    /// Whether this is the command after which the helper exits.
    pub fn is_shutdown(&self) -> (r: bool)
        ensures
            r == (self is Shutdown),
    {
        match self {
            HelperCommand::Shutdown => true,
            _ => false,
        }
    }
}

} // verus!
