use codex_bridge::pets::protocol::PetState;
use codex_bridge::tui::{
    discord_presence_snapshot, model_badge_image_for_text, pet_state, pets_snapshot, ChatStatus,
};

fn status() -> ChatStatus {
    ChatStatus {
        has_thread: true,
        thread_name: None,
        location: "~/code/rpc-codex".to_string(),
        status_line_model: Some("gpt-5.5 high".to_string()),
        model_display_name: "GPT-5.5".to_string(),
        tokens_used: "12.3K".to_string(),
        context_remaining_percent: Some(87),
        status_header: "Working".to_string(),
        status_details: None,
        is_guardian_review: false,
        terminal_title_requires_action: false,
        task_running: false,
        user_turn_pending_start: false,
        task_complete_pending: false,
        has_last_agent_markdown: false,
    }
}

#[test]
fn badge_follows_the_model_name() {
    assert_eq!(model_badge_image_for_text("gpt-5.5 high"), "gpt-55");
    assert_eq!(model_badge_image_for_text("GPT 5.5"), "gpt-55");
    assert_eq!(model_badge_image_for_text("gpt-5.4"), "gpt-54");
    assert_eq!(model_badge_image_for_text(""), "gpt-54");
}

#[test]
fn pet_state_priorities() {
    let mut s = status();
    assert_eq!(pet_state(&s), PetState::Idle);
    s.has_last_agent_markdown = true;
    assert_eq!(pet_state(&s), PetState::Review);
    s.task_running = true;
    assert_eq!(pet_state(&s), PetState::Running);
    s.status_header = "Stream Error, retrying".to_string();
    assert_eq!(pet_state(&s), PetState::Failed);
    s.terminal_title_requires_action = true;
    assert_eq!(pet_state(&s), PetState::Waiting);
}

#[test]
fn failed_header_in_any_case_fails() {
    let mut s = status();
    s.status_header = "FAILED".to_string();
    assert_eq!(pet_state(&s), PetState::Failed);
    s.status_header = "failed early".to_string();
    assert_eq!(pet_state(&s), PetState::Idle);
    s.is_guardian_review = true;
    assert_eq!(pet_state(&s), PetState::Waiting);
    s.is_guardian_review = false;
    s.user_turn_pending_start = true;
    assert_eq!(pet_state(&s), PetState::Running);
    s.user_turn_pending_start = false;
    s.task_complete_pending = true;
    assert_eq!(pet_state(&s), PetState::Review);
}

#[test]
fn pets_snapshot_titles_and_details() {
    let mut s = status();
    let snap = pets_snapshot(&s);
    assert_eq!(snap.title, "Working in ~/code/rpc-codex");
    assert_eq!(snap.subtitle, Some("Working".to_string()));
    assert_eq!(snap.detail, Some("gpt-5.5 high".to_string()));
    assert_eq!(snap.state, PetState::Idle);
    assert_eq!(snap.notification_count, 0);

    s.thread_name = Some("Fix the parser".to_string());
    s.status_details = Some("Reading files".to_string());
    let snap = pets_snapshot(&s);
    assert_eq!(snap.title, "Fix the parser");
    assert_eq!(snap.detail, Some("Reading files".to_string()));

    s.thread_name = Some(String::new());
    s.status_line_model = None;
    s.status_details = None;
    let snap = pets_snapshot(&s);
    assert_eq!(snap.title, "Working in ~/code/rpc-codex");
    assert_eq!(snap.detail, Some("GPT-5.5".to_string()));
}

#[test]
fn presence_waits_for_a_thread() {
    let mut s = status();
    s.has_thread = false;
    assert!(discord_presence_snapshot(&s).is_none());
}

#[test]
fn presence_snapshot_lines() {
    let s = status();
    let p = discord_presence_snapshot(&s).expect("snapshot");
    assert_eq!(p.details, "Working in ~/code/rpc-codex");
    assert_eq!(p.state, Some("12.3K tokens used · 87% context left".to_string()));
    assert_eq!(p.small_image, Some("gpt-55".to_string()));
    assert_eq!(p.small_text, Some("gpt-5.5 high".to_string()));
}

#[test]
fn presence_without_context_or_status_model() {
    let mut s = status();
    s.context_remaining_percent = None;
    s.status_line_model = None;
    s.model_display_name = "gpt-5.4".to_string();
    s.tokens_used = "0".to_string();
    let p = discord_presence_snapshot(&s).expect("snapshot");
    assert_eq!(p.state, Some("0 tokens used".to_string()));
    assert_eq!(p.small_image, Some("gpt-54".to_string()));
    assert_eq!(p.small_text, Some("gpt-5.4".to_string()));
}

#[test]
fn presence_context_percent_formats_as_decimal() {
    let mut s = status();
    s.context_remaining_percent = Some(0);
    let p = discord_presence_snapshot(&s).expect("snapshot");
    assert_eq!(p.state, Some("12.3K tokens used · 0% context left".to_string()));
    s.context_remaining_percent = Some(-5);
    let p = discord_presence_snapshot(&s).expect("snapshot");
    assert_eq!(p.state, Some("12.3K tokens used · -5% context left".to_string()));
    s.context_remaining_percent = Some(100);
    let p = discord_presence_snapshot(&s).expect("snapshot");
    assert_eq!(p.state, Some("12.3K tokens used · 100% context left".to_string()));
}
