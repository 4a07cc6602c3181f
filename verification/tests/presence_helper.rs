use codex_bridge::discord_presence::protocol::HelperCommand;
use codex_bridge::discord_presence_windows::bridge::{
    ClientCall, DiscordActivityTypes, DiscordPresenceActivity, DiscordPresenceAssets,
    DiscordPresenceBridge, DiscordStatusDisplayTypes, HelperInput,
};
use codex_bridge::discord_presence_windows::ffi::{DiscordOwnedString, Discord_String};

fn set_presence(small_image: Option<&str>) -> HelperCommand {
    HelperCommand::SetPresence {
        details: "Working in ~/x".to_string(),
        state: Some("12 tokens used".to_string()),
        small_image: small_image.map(|s| s.to_string()),
        small_text: None,
        start_timestamp_seconds: 77,
    }
}

fn bytes_of(value: &Option<DiscordOwnedString>) -> Option<Vec<u8>> {
    value.as_ref().map(|s| s.bytes.clone())
}

#[test]
fn new_bridge_sets_the_application_id() {
    let (bridge, calls) = DiscordPresenceBridge::new(1234);
    assert_eq!(calls, vec![ClientCall::SetApplicationId(1234)]);
    assert!(bridge.current_activity().is_none());
}

#[test]
fn set_presence_updates_then_runs_callbacks() {
    let (mut bridge, _) = DiscordPresenceBridge::new(1);
    let step = bridge.handle(HelperInput::Command(set_presence(Some("gpt-54"))), Some("codex"));
    assert_eq!(step.calls, vec![ClientCall::UpdateRichPresence, ClientCall::RunCallbacks]);
    assert!(!step.finished);
    let activity = bridge.current_activity().as_ref().expect("activity");
    assert_eq!(activity.activity_type, DiscordActivityTypes::Playing);
    assert_eq!(activity.status_display_type, DiscordStatusDisplayTypes::Details);
    assert_eq!(activity.details.bytes, b"Working in ~/x".to_vec());
    assert_eq!(bytes_of(&activity.state), Some(b"12 tokens used".to_vec()));
    assert_eq!(activity.start_timestamp_seconds, 77);
    let assets = activity.assets.as_ref().expect("assets");
    assert_eq!(bytes_of(&assets.large_image), Some(b"codex".to_vec()));
    assert_eq!(bytes_of(&assets.large_text), None);
    assert_eq!(bytes_of(&assets.small_image), Some(b"gpt-54".to_vec()));
    assert_eq!(bytes_of(&assets.small_text), None);
}

#[test]
fn activity_without_images_has_no_assets() {
    let activity = DiscordPresenceActivity::new("d", None, None, None, 3, None);
    assert!(activity.assets.is_none());
    assert!(activity.state.is_none());
    let with_text = DiscordPresenceActivity::new("d", None, None, Some("model"), 3, None);
    let assets = with_text.assets.expect("assets");
    assert_eq!(bytes_of(&assets.small_text), Some(b"model".to_vec()));
    assert_eq!(bytes_of(&assets.large_image), None);
}

#[test]
fn assets_hold_every_given_text() {
    let a = DiscordPresenceAssets::new(Some("L"), Some("LT"), None, Some("é"));
    assert_eq!(bytes_of(&a.large_image), Some(b"L".to_vec()));
    assert_eq!(bytes_of(&a.large_text), Some(b"LT".to_vec()));
    assert_eq!(bytes_of(&a.small_image), None);
    assert_eq!(bytes_of(&a.small_text), Some(vec![0xC3, 0xA9]));
}

#[test]
fn clear_drops_the_activity() {
    let (mut bridge, _) = DiscordPresenceBridge::new(1);
    bridge.handle(HelperInput::Command(set_presence(None)), None);
    let step = bridge.handle(HelperInput::Command(HelperCommand::ClearPresence), None);
    assert_eq!(step.calls, vec![ClientCall::ClearRichPresence, ClientCall::RunCallbacks]);
    assert!(!step.finished);
    assert!(bridge.current_activity().is_none());
}

#[test]
fn idle_tick_only_runs_callbacks() {
    let (mut bridge, _) = DiscordPresenceBridge::new(1);
    bridge.handle(HelperInput::Command(set_presence(None)), None);
    let step = bridge.handle(HelperInput::Timeout, None);
    assert_eq!(step.calls, vec![ClientCall::RunCallbacks]);
    assert!(!step.finished);
    assert!(bridge.current_activity().is_some());
}

#[test]
fn shutdown_and_end_of_input_clear_and_finish() {
    let (mut bridge, _) = DiscordPresenceBridge::new(1);
    bridge.handle(HelperInput::Command(set_presence(None)), None);
    let step = bridge.handle(HelperInput::Command(HelperCommand::Shutdown), None);
    assert_eq!(step.calls, vec![ClientCall::ClearRichPresence, ClientCall::RunCallbacks]);
    assert!(step.finished);
    assert!(bridge.current_activity().is_none());

    let (mut other, _) = DiscordPresenceBridge::new(1);
    let step = other.handle(HelperInput::Disconnected, None);
    assert_eq!(step.calls, vec![ClientCall::ClearRichPresence, ClientCall::RunCallbacks]);
    assert!(step.finished);
}

#[test]
fn later_update_replaces_earlier() {
    let (mut bridge, _) = DiscordPresenceBridge::new(1);
    bridge.handle(HelperInput::Command(set_presence(Some("a"))), None);
    bridge.handle(HelperInput::Command(set_presence(None)), None);
    assert!(bridge.current_activity().as_ref().expect("activity").assets.is_none());
}

#[test]
fn direct_bridge_calls() {
    let (mut bridge, _) = DiscordPresenceBridge::new(1);
    let calls = bridge.set_presence("d", None, None, None, 1, None);
    assert_eq!(calls, vec![ClientCall::UpdateRichPresence, ClientCall::RunCallbacks]);
    assert_eq!(bridge.run_callbacks(), vec![ClientCall::RunCallbacks]);
    assert_eq!(
        bridge.clear_presence(),
        vec![ClientCall::ClearRichPresence, ClientCall::RunCallbacks]
    );
}

#[test]
fn discord_strings_carry_bytes() {
    let empty = Discord_String::empty();
    assert_eq!(empty.to_string_lossy(), "");
    let mut bytes = b"oops".to_vec();
    let s = Discord_String::from_mut_bytes(&mut bytes);
    assert_eq!(s.to_string_lossy(), "oops");
    assert_eq!(bytes, b"oops".to_vec());
    let mut invalid = vec![b'a', 0xFF, b'b'];
    let s = Discord_String::from_mut_bytes(&mut invalid);
    assert_eq!(s.to_string_lossy(), "a\u{FFFD}b");
}

#[test]
fn owned_strings_are_utf8() {
    let mut owned = DiscordOwnedString::new("héllo");
    assert_eq!(owned.bytes, "héllo".as_bytes().to_vec());
    let raw = owned.raw();
    assert_eq!(raw.to_string_lossy(), "héllo");
}

#[test]
fn valid_utf8_reads_back_as_itself() {
    let mut hi = b"hi".to_vec();
    assert_eq!(Discord_String::from_mut_bytes(&mut hi).to_string_lossy(), "hi");
    let mut none: Vec<u8> = Vec::new();
    assert_eq!(Discord_String::from_mut_bytes(&mut none).to_string_lossy(), "");
}
