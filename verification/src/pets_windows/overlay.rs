//! How the overlay answers the bridge's commands: which pet and card it
//! shows, whether it is visible, and what the window must do in turn.
use vstd::prelude::*;
use vstd::string::*;

use crate::pets::protocol::{HelperCommand, HelperCommandView, HelperSnapshot, HelperSnapshotView, PetState};
use crate::text::{chars_equal, chars_of, clone_opt};

verus! {

/// The pets the overlay has spritesheets for, in the order they are loaded.
pub open spec fn known_pets() -> Seq<Seq<char>> {
    seq![
        "codex"@,
        "dewey"@,
        "fireball"@,
        "rocky"@,
        "seedy"@,
        "stacky"@,
        "bsod"@,
        "null-signal"@,
    ]
}

/// The ids of the pets the overlay has spritesheets for.
pub fn pet_ids() -> (ids: Vec<&'static str>)
    ensures
        ids@.len() == known_pets().len(),
        forall|i: int| 0 <= i < ids@.len() ==> (#[trigger] ids@[i])@ == known_pets()[i],
{
    let ids = vec!["codex", "dewey", "fireball", "rocky", "seedy", "stacky", "bsod", "null-signal"];
    assert forall|i: int| 0 <= i < ids@.len() implies (#[trigger] ids@[i])@ == known_pets()[i] by {}
    ids
}

/// The pet shown for a requested pet: itself when the overlay knows it,
/// else `codex`.
pub open spec fn normalized_pet_spec(value: Seq<char>) -> Seq<char> {
    if known_pets().contains(value) {
        value
    } else {
        "codex"@
    }
}

/// The pet shown for a requested pet.
pub fn normalized_pet(value: &str) -> (pet: &str)
    ensures
        pet@ == normalized_pet_spec(value@),
{
    let ids = pet_ids();
    let wanted = chars_of(value);
    let mut i: usize = 0;
    while i < ids.len()
        invariant
            i <= ids@.len(),
            ids@.len() == known_pets().len(),
            forall|k: int| 0 <= k < ids@.len() ==> (#[trigger] ids@[k])@ == known_pets()[k],
            wanted@ == value@,
            forall|k: int| 0 <= k < i ==> known_pets()[k] != value@,
        decreases ids@.len() - i,
    {
        if chars_equal(&chars_of(ids[i]), &wanted) {
            assert(known_pets()[i as int] == value@);
            return value;
        }
        i = i + 1;
    }
    assert(!known_pets().contains(value@));
    "codex"
}

/// What the window must do after a command, in order.
pub enum OverlayAction {
    /// Find the terminal window to return focus to: the window titled
    /// `hint` (or else `Windows Terminal`), or else the foreground window.
    LocateTerminal { hint: Option<String> },
    /// Bring the window to the top and show it without taking focus.
    Show,
    /// Hide the window and report `Hidden` to the bridge.
    Hide,
    /// Restart the pet's animation from its first frame.
    RestartAnimation,
    /// Paint the picture into the window.
    Render,
    /// Destroy the window, which ends the overlay.
    Destroy,
}

/// The value an [`OverlayAction`] stands for.
pub enum OverlayActionView {
    LocateTerminal { hint: Option<Seq<char>> },
    Show,
    Hide,
    RestartAnimation,
    Render,
    Destroy,
}

impl View for OverlayAction {
    type V = OverlayActionView;

    open spec fn view(&self) -> OverlayActionView {
        match self {
            OverlayAction::LocateTerminal { hint } => OverlayActionView::LocateTerminal {
                hint: hint.deep_view(),
            },
            OverlayAction::Show => OverlayActionView::Show,
            OverlayAction::Hide => OverlayActionView::Hide,
            OverlayAction::RestartAnimation => OverlayActionView::RestartAnimation,
            OverlayAction::Render => OverlayActionView::Render,
            OverlayAction::Destroy => OverlayActionView::Destroy,
        }
    }
}

/// Actions seen through their views.
pub open spec fn actions_view(actions: Seq<OverlayAction>) -> Seq<OverlayActionView> {
    Seq::new(actions.len(), |i: int| actions[i]@)
}

/// What the overlay shows and whether it is visible.
pub struct OverlayState {
    selected_pet: String,
    snapshot: HelperSnapshot,
    visible: bool,
}

/// The value an [`OverlayState`] stands for.
pub struct OverlayStateView {
    pub selected_pet: Seq<char>,
    pub snapshot: HelperSnapshotView,
    pub visible: bool,
}

impl View for OverlayState {
    type V = OverlayStateView;

    closed spec fn view(&self) -> OverlayStateView {
        OverlayStateView {
            selected_pet: self.selected_pet@,
            snapshot: self.snapshot@,
            visible: self.visible,
        }
    }
}

/// The state before any command: the `codex` pet, idle, hidden.
pub open spec fn initial_overlay() -> OverlayStateView {
    OverlayStateView {
        selected_pet: "codex"@,
        snapshot: HelperSnapshotView {
            pet: "codex"@,
            state: PetState::Idle,
            title: "Codex"@,
            subtitle: Some("Idle"@),
            detail: None,
        },
        visible: false,
    }
}

/// One command: the next state and what the window must do.
/// `Show` sets the pet, looks for the terminal, and toggles visibility;
/// `Hide` hides; `SetSnapshot` replaces the card (for a known pet) and
/// restarts the animation, painting it when visible; `Shutdown` destroys
/// the window.
pub open spec fn overlay_step(state: OverlayStateView, command: HelperCommandView) -> (
    OverlayStateView,
    Seq<OverlayActionView>,
) {
    match command {
        HelperCommandView::Show { pet, terminal_window_hint } => {
            let selected = normalized_pet_spec(pet);
            let snapshot = HelperSnapshotView { pet: selected, ..state.snapshot };
            let locate = OverlayActionView::LocateTerminal { hint: terminal_window_hint };
            if state.visible {
                (
                    OverlayStateView { selected_pet: selected, snapshot, visible: false },
                    seq![locate, OverlayActionView::Hide],
                )
            } else {
                (
                    OverlayStateView { selected_pet: selected, snapshot, visible: true },
                    seq![locate, OverlayActionView::Show, OverlayActionView::Render],
                )
            }
        },
        HelperCommandView::Hide => (
            OverlayStateView { visible: false, ..state },
            seq![OverlayActionView::Hide],
        ),
        HelperCommandView::SetSnapshot { snapshot } => {
            let selected = normalized_pet_spec(snapshot.pet);
            (
                OverlayStateView {
                    selected_pet: selected,
                    snapshot: HelperSnapshotView { pet: selected, ..snapshot },
                    ..state
                },
                if state.visible {
                    seq![OverlayActionView::RestartAnimation, OverlayActionView::Render]
                } else {
                    seq![OverlayActionView::RestartAnimation]
                },
            )
        },
        HelperCommandView::Shutdown => (state, seq![OverlayActionView::Destroy]),
    }
}

impl OverlayState {
    /// The overlay before any command.
    pub fn new() -> (s: OverlayState)
        ensures
            s@ == initial_overlay(),
    {
        OverlayState {
            selected_pet: String::from_str("codex"),
            snapshot: HelperSnapshot {
                pet: String::from_str("codex"),
                state: PetState::Idle,
                title: String::from_str("Codex"),
                subtitle: Some(String::from_str("Idle")),
                detail: None,
            },
            visible: false,
        }
    }

    /// Whether the window is shown (and so repainted on each tick).
    pub fn visible(&self) -> (v: bool)
        ensures
            v == self@.visible,
    {
        self.visible
    }

    /// The pet shown.
    pub fn selected_pet(&self) -> (p: &String)
        ensures
            p@ == self@.selected_pet,
    {
        &self.selected_pet
    }

    /// The card shown.
    pub fn snapshot(&self) -> (s: &HelperSnapshot)
        ensures
            s@ == self@.snapshot,
    {
        &self.snapshot
    }

    /// Applies one command from the bridge; the actions returned are
    /// performed by the window in order.
    pub fn apply(&mut self, command: HelperCommand) -> (actions: Vec<OverlayAction>)
        ensures
            (final(self)@, actions_view(actions@)) == overlay_step(old(self)@, command@),
    {
        let mut actions: Vec<OverlayAction> = Vec::new();
        match command {
            HelperCommand::Show { pet, terminal_window_hint } => {
                let selected = String::from_str(normalized_pet(pet.as_str()));
                self.snapshot.pet = selected.clone();
                self.selected_pet = selected;
                actions.push(OverlayAction::LocateTerminal { hint: terminal_window_hint });
                if self.visible {
                    self.visible = false;
                    actions.push(OverlayAction::Hide);
                } else {
                    self.visible = true;
                    actions.push(OverlayAction::Show);
                    actions.push(OverlayAction::Render);
                }
            },
            HelperCommand::Hide => {
                self.visible = false;
                actions.push(OverlayAction::Hide);
            },
            HelperCommand::SetSnapshot { snapshot } => {
                let selected = String::from_str(normalized_pet(snapshot.pet.as_str()));
                self.snapshot = HelperSnapshot { pet: selected.clone(), ..snapshot };
                self.selected_pet = selected;
                actions.push(OverlayAction::RestartAnimation);
                if self.visible {
                    actions.push(OverlayAction::Render);
                }
            },
            HelperCommand::Shutdown => {
                actions.push(OverlayAction::Destroy);
            },
        }
        assert(actions_view(actions@) == overlay_step(old(self)@, command@).1);
        actions
    }
}

/// The overlay always shows a pet it knows, and the card names that pet.
pub open spec fn overlay_consistent(state: OverlayStateView) -> bool {
    known_pets().contains(state.selected_pet) && state.snapshot.pet == state.selected_pet
}

/// Every command keeps the overlay consistent, starting from its first state.
pub proof fn lemma_overlay_stays_consistent(state: OverlayStateView, command: HelperCommandView)
    requires
        overlay_consistent(state),
    ensures
        overlay_consistent(initial_overlay()),
        overlay_consistent(overlay_step(state, command).0),
{
    assert(known_pets()[0] == "codex"@);
    match command {
        HelperCommandView::Show { pet, .. } => {
            if !known_pets().contains(pet) {
                assert(known_pets()[0] == "codex"@);
            }
        },
        HelperCommandView::SetSnapshot { snapshot } => {
            if !known_pets().contains(snapshot.pet) {
                assert(known_pets()[0] == "codex"@);
            }
        },
        _ => {},
    }
}

/// `Show` toggles: two in a row leave the overlay as visible as before,
/// and `Hide` always leaves it hidden, whatever it was.
pub proof fn lemma_show_toggles(
    state: OverlayStateView,
    pet: Seq<char>,
    hint: Option<Seq<char>>,
)
    ensures
        ({
            let show = HelperCommandView::Show { pet, terminal_window_hint: hint };
            let once = overlay_step(state, show).0;
            let twice = overlay_step(once, show).0;
            &&& once.visible == !state.visible
            &&& twice.visible == state.visible
        }),
        !overlay_step(state, HelperCommandView::Hide).0.visible,
{
}

/// Replacing the card never shows or hides the window, and only a visible
/// window is painted.
pub proof fn lemma_snapshot_keeps_visibility(state: OverlayStateView, snapshot: HelperSnapshotView)
    ensures
        overlay_step(state, HelperCommandView::SetSnapshot { snapshot }).0.visible == state.visible,
        overlay_step(state, HelperCommandView::SetSnapshot { snapshot }).1.contains(
            OverlayActionView::Render,
        ) == state.visible,
{
    let acts = overlay_step(state, HelperCommandView::SetSnapshot { snapshot }).1;
    if !state.visible {
        assert(acts == seq![OverlayActionView::RestartAnimation]);
        assert(acts[0] != OverlayActionView::Render);
    } else {
        assert(acts[1] == OverlayActionView::Render);
    }
}

/// A new card replaces the old one in every field but the pet: its state,
/// title, subtitle and detail are the received ones, and its pet, which
/// the overlay then shows, is the received pet when the overlay knows it,
/// else `codex`. The animation restarts and the window keeps its
/// visibility.
pub proof fn lemma_snapshot_replaces_card(state: OverlayStateView, snapshot: HelperSnapshotView)
    ensures
        ({
            let (next, actions) = overlay_step(state, HelperCommandView::SetSnapshot { snapshot });
            &&& next.snapshot.state == snapshot.state
            &&& next.snapshot.title == snapshot.title
            &&& next.snapshot.subtitle == snapshot.subtitle
            &&& next.snapshot.detail == snapshot.detail
            &&& next.snapshot.pet == (if known_pets().contains(snapshot.pet) {
                snapshot.pet
            } else {
                "codex"@
            })
            &&& next.selected_pet == next.snapshot.pet
            &&& next.visible == state.visible
            &&& actions.len() >= 1
            &&& actions[0] == OverlayActionView::RestartAnimation
        }),
{
}

/// `Show` switches to the requested pet (else `codex`), keeps the rest of
/// the card, looks for the terminal named by the hint first, and toggles
/// the window; `Hide` hides the window and changes nothing else; `Shutdown`
/// only destroys the window.
pub proof fn lemma_show_hide_shutdown(
    state: OverlayStateView,
    pet: Seq<char>,
    hint: Option<Seq<char>>,
)
    ensures
        ({
            let (next, actions) = overlay_step(
                state,
                HelperCommandView::Show { pet, terminal_window_hint: hint },
            );
            let shown = if known_pets().contains(pet) {
                pet
            } else {
                "codex"@
            };
            &&& next.selected_pet == shown
            &&& next.snapshot.pet == shown
            &&& next.snapshot.state == state.snapshot.state
            &&& next.snapshot.title == state.snapshot.title
            &&& next.snapshot.subtitle == state.snapshot.subtitle
            &&& next.snapshot.detail == state.snapshot.detail
            &&& next.visible == !state.visible
            &&& actions[0] == OverlayActionView::LocateTerminal { hint }
            &&& (next.visible ==> actions.contains(OverlayActionView::Render))
        }),
        ({
            let (next, actions) = overlay_step(state, HelperCommandView::Hide);
            &&& next == OverlayStateView { visible: false, ..state }
            &&& actions == seq![OverlayActionView::Hide]
        }),
        overlay_step(state, HelperCommandView::Shutdown) == (state, seq![OverlayActionView::Destroy]),
{
    let (next, actions) = overlay_step(state, HelperCommandView::Show { pet, terminal_window_hint: hint });
    if next.visible {
        assert(actions[2] == OverlayActionView::Render);
    }
}

} // verus!
