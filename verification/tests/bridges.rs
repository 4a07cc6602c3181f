use codex_bridge::discord_presence::client::{
    DiscordPresenceSnapshot, PresenceBridge, PresenceRequest,
};
use codex_bridge::discord_presence::protocol::HelperCommand as PresenceCommand;
use codex_bridge::pets::client::{PetsBridge, PetsRequest, PetsRuntimeConfig, PetsSnapshot};
use codex_bridge::pets::protocol::{HelperCommand as PetsCommand, HelperSnapshot, PetState};

fn pets_snapshot(title: &str) -> PetsSnapshot {
    PetsSnapshot {
        state: PetState::Running,
        title: title.to_string(),
        subtitle: Some("Thinking".to_string()),
        detail: None,
        notification_count: 0,
    }
}

fn pets_bridge() -> PetsBridge {
    PetsBridge::new(
        PetsRuntimeConfig { selected_pet: "rocky".to_string() },
        Some("Windows Terminal".to_string()),
    )
}

#[test]
fn pets_toggle_shows_the_configured_pet() {
    let mut b = pets_bridge();
    assert_eq!(
        b.handle(PetsRequest::Toggle),
        Some(PetsCommand::Show {
            pet: "rocky".to_string(),
            terminal_window_hint: Some("Windows Terminal".to_string()),
        })
    );
    assert_eq!(
        b.handle(PetsRequest::Toggle),
        Some(PetsCommand::Show {
            pet: "rocky".to_string(),
            terminal_window_hint: Some("Windows Terminal".to_string()),
        })
    );
}

#[test]
fn pets_update_carries_the_pet_and_drops_repeats() {
    let mut b = pets_bridge();
    let expected = Some(PetsCommand::SetSnapshot {
        snapshot: HelperSnapshot {
            pet: "rocky".to_string(),
            state: PetState::Running,
            title: "rpc-codex".to_string(),
            subtitle: Some("Thinking".to_string()),
            detail: None,
        },
    });
    assert_eq!(b.handle(PetsRequest::Update(pets_snapshot("rpc-codex"))), expected);
    assert_eq!(b.handle(PetsRequest::Update(pets_snapshot("rpc-codex"))), None);
    assert!(b.handle(PetsRequest::Update(pets_snapshot("other"))).is_some());
    assert!(b.handle(PetsRequest::Update(pets_snapshot("rpc-codex"))).is_some());
}

#[test]
fn pets_toggle_does_not_forget_the_last_snapshot() {
    let mut b = pets_bridge();
    assert!(b.handle(PetsRequest::Update(pets_snapshot("a"))).is_some());
    assert!(b.handle(PetsRequest::Toggle).is_some());
    assert_eq!(b.handle(PetsRequest::Update(pets_snapshot("a"))), None);
}

#[test]
fn pets_shutdown_is_forwarded() {
    let mut b = pets_bridge();
    assert_eq!(b.handle(PetsRequest::Shutdown), Some(PetsCommand::Shutdown));
}

fn presence(details: &str) -> DiscordPresenceSnapshot {
    DiscordPresenceSnapshot {
        details: details.to_string(),
        state: Some("1.2K tokens used".to_string()),
        small_image: Some("gpt-54".to_string()),
        small_text: Some("gpt-5.4".to_string()),
    }
}

#[test]
fn presence_update_is_stamped_with_the_session_start() {
    let mut b = PresenceBridge::new(1_700_000_000);
    assert_eq!(
        b.handle(PresenceRequest::Update(Some(presence("Working in ~/x")))),
        Some(PresenceCommand::SetPresence {
            details: "Working in ~/x".to_string(),
            state: Some("1.2K tokens used".to_string()),
            small_image: Some("gpt-54".to_string()),
            small_text: Some("gpt-5.4".to_string()),
            start_timestamp_seconds: 1_700_000_000,
        })
    );
}

#[test]
fn presence_repeats_and_initial_clear_are_dropped() {
    let mut b = PresenceBridge::new(5);
    assert_eq!(b.handle(PresenceRequest::Update(None)), None);
    assert!(b.handle(PresenceRequest::Update(Some(presence("a")))).is_some());
    assert_eq!(b.handle(PresenceRequest::Update(Some(presence("a")))), None);
    assert_eq!(
        b.handle(PresenceRequest::Update(None)),
        Some(PresenceCommand::ClearPresence)
    );
    assert_eq!(b.handle(PresenceRequest::Update(None)), None);
    assert!(b.handle(PresenceRequest::Update(Some(presence("a")))).is_some());
}

#[test]
fn presence_start_time_stays_fixed() {
    let mut b = PresenceBridge::new(42);
    assert!(b.handle(PresenceRequest::Update(Some(presence("a")))).is_some());
    match b.handle(PresenceRequest::Update(Some(presence("b")))) {
        Some(PresenceCommand::SetPresence { start_timestamp_seconds, .. }) => {
            assert_eq!(start_timestamp_seconds, 42)
        }
        other => panic!("unexpected {other:?}"),
    }
}

#[test]
fn presence_shutdown_is_forwarded() {
    let mut b = PresenceBridge::new(1);
    assert_eq!(b.handle(PresenceRequest::Shutdown), Some(PresenceCommand::Shutdown));
    assert!(PresenceCommand::Shutdown.is_shutdown());
    assert!(!PresenceCommand::ClearPresence.is_shutdown());
}

#[test]
fn snapshots_compare_by_value() {
    assert!(presence("a").same_as(&presence("a")));
    assert!(!presence("a").same_as(&presence("b")));
    assert!(pets_snapshot("a").same_as(&pets_snapshot("a")));
    let mut other = pets_snapshot("a");
    other.detail = Some("d".to_string());
    assert!(!pets_snapshot("a").same_as(&other));
}
