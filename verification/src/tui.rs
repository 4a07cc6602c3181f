//! What the chat view publishes to the pet overlay and to Discord, computed
//! from the status values the chat view holds.
use vstd::prelude::*;
use vstd::string::*;

use crate::discord_presence::client::{DiscordPresenceSnapshot, DiscordPresenceSnapshotView};
use crate::pets::client::{PetsSnapshot, PetsSnapshotView};
use crate::pets::protocol::PetState;
use crate::text::{
    chars_equal, chars_of, clone_opt, contains_chars, decimal_i64, extend_chars, extend_str,
    has_subseq, i64_to_decimal, lower_chars, lower_seq, string_of,
};

verus! {

/// Badge image for models whose name mentions GPT-5.5.
pub const GPT_55_MODEL_BADGE_IMAGE: &'static str = "gpt-55";

/// Badge image for every other model.
pub const DEFAULT_MODEL_BADGE_IMAGE: &'static str = "gpt-54";

/// The status values of the chat view that the summaries are made from.
pub struct ChatStatus {
    /// Whether the session has a thread yet.
    pub has_thread: bool,
    /// The thread's name, if it was given one.
    pub thread_name: Option<String>,
    /// The working directory as the status line displays it.
    pub location: String,
    /// The status line's model-with-reasoning text, when it shows one.
    pub status_line_model: Option<String>,
    /// The model's display name.
    pub model_display_name: String,
    /// The tokens in the context window, compactly formatted.
    pub tokens_used: String,
    /// The percentage of the context window left, when known.
    pub context_remaining_percent: Option<i64>,
    /// The header of the current status indicator.
    pub status_header: String,
    /// The details of the current status indicator.
    pub status_details: Option<String>,
    /// Whether the current status is a guardian review.
    pub is_guardian_review: bool,
    /// Whether the terminal title asks the user to act.
    pub terminal_title_requires_action: bool,
    /// Whether a task is running.
    pub task_running: bool,
    /// Whether a user turn is about to start.
    pub user_turn_pending_start: bool,
    /// Whether a finished task waits to be reviewed.
    pub task_complete_pending: bool,
    /// Whether the agent has left a final message.
    pub has_last_agent_markdown: bool,
}

/// The badge image for a model text: the GPT-5.5 badge when the text, in
/// lower case, contains `gpt-5.5` or `gpt 5.5`, else the default badge.
pub open spec fn badge_for(model_text: Seq<char>) -> Seq<char> {
    let lower = lower_seq(model_text);
    if has_subseq(lower, "gpt-5.5"@) || has_subseq(lower, "gpt 5.5"@) {
        GPT_55_MODEL_BADGE_IMAGE@
    } else {
        DEFAULT_MODEL_BADGE_IMAGE@
    }
}

/// Chooses the Discord badge image for a model text.
pub fn model_badge_image_for_text(model_text: &str) -> (image: &'static str)
    ensures
        image@ == badge_for(model_text@),
{
    let lower = lower_chars(&chars_of(model_text));
    if contains_chars(&lower, &chars_of("gpt-5.5")) || contains_chars(&lower, &chars_of("gpt 5.5")) {
        GPT_55_MODEL_BADGE_IMAGE
    } else {
        DEFAULT_MODEL_BADGE_IMAGE
    }
}

/// The pet's state: waiting when the user is needed, failed when the status
/// header reads `failed` or mentions an error (in any letter case), running
/// while a turn is in progress, reviewing when a result awaits, else idle.
pub open spec fn pet_state_for(s: ChatStatus) -> PetState {
    let header = lower_seq(s.status_header@);
    if s.is_guardian_review || s.terminal_title_requires_action {
        PetState::Waiting
    } else if header == "failed"@ || has_subseq(header, "error"@) {
        PetState::Failed
    } else if s.task_running || s.user_turn_pending_start {
        PetState::Running
    } else if s.task_complete_pending || s.has_last_agent_markdown {
        PetState::Review
    } else {
        PetState::Idle
    }
}

/// Decides what the pet is doing.
pub fn pet_state(s: &ChatStatus) -> (state: PetState)
    ensures
        state == pet_state_for(*s),
{
    if s.is_guardian_review || s.terminal_title_requires_action {
        return PetState::Waiting;
    }
    let header = lower_chars(&chars_of(s.status_header.as_str()));
    if chars_equal(&header, &chars_of("failed")) || contains_chars(&header, &chars_of("error")) {
        PetState::Failed
    } else if s.task_running || s.user_turn_pending_start {
        PetState::Running
    } else if s.task_complete_pending || s.has_last_agent_markdown {
        PetState::Review
    } else {
        PetState::Idle
    }
}

/// The model text shown: the status line's, or else the display name.
pub open spec fn model_text_for(s: ChatStatus) -> Seq<char> {
    match s.status_line_model {
        Some(m) => m@,
        None => s.model_display_name@,
    }
}

/// The model text shown: the status line's, or else the display name.
fn model_text(s: &ChatStatus) -> (m: String)
    ensures
        m@ == model_text_for(*s),
{
    match &s.status_line_model {
        Some(m) => m.clone(),
        None => s.model_display_name.clone(),
    }
}

/// What the pet overlay shows: the thread's name as title (or where the
/// session works, when the thread has no name), the status header as
/// subtitle, and the status details, or else the model text, as detail.
pub open spec fn pets_snapshot_for(s: ChatStatus) -> PetsSnapshotView {
    PetsSnapshotView {
        state: pet_state_for(s),
        title: match s.thread_name {
            Some(name) if name@.len() > 0 => name@,
            _ => "Working in "@ + s.location@,
        },
        subtitle: Some(s.status_header@),
        detail: match s.status_details {
            Some(d) => Some(d@),
            None => Some(model_text_for(s)),
        },
        notification_count: 0,
    }
}

/// The snapshot the chat view sends to the pet overlay.
pub fn pets_snapshot(s: &ChatStatus) -> (snapshot: PetsSnapshot)
    ensures
        snapshot@ == pets_snapshot_for(*s),
{
    let title = match &s.thread_name {
        Some(name) if name.as_str().unicode_len() > 0 => name.clone(),
        _ => {
            let mut v: Vec<char> = Vec::new();
            extend_str(&mut v, "Working in ");
            extend_str(&mut v, s.location.as_str());
            string_of(&v)
        },
    };
    let detail = match &s.status_details {
        Some(d) => Some(d.clone()),
        None => Some(model_text(s)),
    };
    PetsSnapshot {
        state: pet_state(s),
        title,
        subtitle: Some(s.status_header.clone()),
        detail,
        notification_count: 0,
    }
}

/// The Discord presence state line: the tokens used, then the context
/// left when it is known.
pub open spec fn presence_state_for(s: ChatStatus) -> Seq<char> {
    let used = s.tokens_used@ + " tokens used"@;
    match s.context_remaining_percent {
        Some(p) => used + " · "@ + decimal_i64(p) + "% context left"@,
        None => used,
    }
}

/// What Discord shows: nothing before the session has a thread; then where
/// the session works, the token and context line, and the model as small
/// text with its badge as small image.
pub open spec fn presence_snapshot_for(s: ChatStatus) -> Option<DiscordPresenceSnapshotView> {
    if !s.has_thread {
        None
    } else {
        Some(
            DiscordPresenceSnapshotView {
                details: "Working in "@ + s.location@,
                state: Some(presence_state_for(s)),
                small_image: Some(badge_for(model_text_for(s))),
                small_text: Some(model_text_for(s)),
            },
        )
    }
}

/// The presence the chat view publishes to Discord, if any.
pub fn discord_presence_snapshot(s: &ChatStatus) -> (snapshot: Option<DiscordPresenceSnapshot>)
    ensures
        match snapshot {
            Some(p) => presence_snapshot_for(*s) == Some(p@),
            None => presence_snapshot_for(*s) is None,
        },
{
    if !s.has_thread {
        return None;
    }
    let small_text = model_text(s);
    let mut details: Vec<char> = Vec::new();
    extend_str(&mut details, "Working in ");
    extend_str(&mut details, s.location.as_str());
    let mut state: Vec<char> = Vec::new();
    extend_str(&mut state, s.tokens_used.as_str());
    extend_str(&mut state, " tokens used");
    match s.context_remaining_percent {
        Some(p) => {
            extend_str(&mut state, " · ");
            let digits = i64_to_decimal(p);
            extend_chars(&mut state, &digits);
            extend_str(&mut state, "% context left");
        },
        None => {},
    }
    let badge = model_badge_image_for_text(small_text.as_str());
    Some(
        DiscordPresenceSnapshot {
            details: string_of(&details),
            state: Some(string_of(&state)),
            small_image: Some(String::from_str(badge)),
            small_text: Some(small_text),
        },
    )
}

proof fn lemma_lower_twice(t: Seq<char>)
    ensures
        lower_seq(lower_seq(t)) == lower_seq(t),
{
    assert forall|i: int| 0 <= i < t.len() implies #[trigger] lower_seq(lower_seq(t))[i]
        == lower_seq(t)[i] by {
        let c = t[i];
        if 'A' <= c && c <= 'Z' {
            assert('a' <= ((c as u32) + 32) as char);
            assert(((c as u32) + 32) as char <= 'z');
        }
    }
    assert(lower_seq(lower_seq(t)) =~= lower_seq(t));
}

/// The badge ignores ASCII letter case: a model text and its lower-case
/// form get the same badge. It is the GPT-5.5 badge exactly when the
/// lower-cased text contains `gpt-5.5` or `gpt 5.5`, and the default badge
/// otherwise.
pub proof fn lemma_badge_ignores_case(t: Seq<char>)
    ensures
        badge_for(t) == badge_for(lower_seq(t)),
        badge_for(t) == GPT_55_MODEL_BADGE_IMAGE@ <==> (has_subseq(lower_seq(t), "gpt-5.5"@)
            || has_subseq(lower_seq(t), "gpt 5.5"@)),
        badge_for(t) == GPT_55_MODEL_BADGE_IMAGE@ || badge_for(t) == DEFAULT_MODEL_BADGE_IMAGE@,
{
    lemma_lower_twice(t);
    reveal_strlit("gpt-55");
    reveal_strlit("gpt-54");
    assert(GPT_55_MODEL_BADGE_IMAGE@[5] != DEFAULT_MODEL_BADGE_IMAGE@[5]);
}

/// The pet waits whenever the user is needed (a guardian review, or a
/// terminal title asking for action). Otherwise it has failed when the
/// status header, in lower case, is `failed` or mentions `error`; otherwise
/// it runs while a task runs or a user turn is starting; otherwise it shows
/// a result for review when a finished task or a final message waits; and
/// it idles only when none of these holds.
pub proof fn lemma_pet_state_priorities(s: ChatStatus)
    ensures
        ({
            let header = lower_seq(s.status_header@);
            let waiting = s.is_guardian_review || s.terminal_title_requires_action;
            let failed = header == "failed"@ || has_subseq(header, "error"@);
            let running = s.task_running || s.user_turn_pending_start;
            let review = s.task_complete_pending || s.has_last_agent_markdown;
            &&& (pet_state_for(s) == PetState::Waiting <==> waiting)
            &&& (pet_state_for(s) == PetState::Failed <==> !waiting && failed)
            &&& (pet_state_for(s) == PetState::Running <==> !waiting && !failed && running)
            &&& (pet_state_for(s) == PetState::Review <==> !waiting && !failed && !running
                && review)
            &&& (pet_state_for(s) == PetState::Idle <==> !waiting && !failed && !running
                && !review)
        }),
{
}

/// The pet's card: titled with the thread's name when it has a non-empty
/// one, else `Working in` and the location; the status header as subtitle;
/// the status details, or else the model text (the status line's model,
/// else the display name), as detail; the pet's state; no notifications.
pub proof fn lemma_pets_snapshot_fields(s: ChatStatus)
    ensures
        ({
            let p = pets_snapshot_for(s);
            let named = match s.thread_name {
                Some(n) => n@.len() > 0,
                None => false,
            };
            let model = match s.status_line_model {
                Some(m) => m@,
                None => s.model_display_name@,
            };
            &&& p.state == pet_state_for(s)
            &&& (named ==> p.title == s.thread_name->0@)
            &&& (!named ==> p.title == "Working in "@ + s.location@)
            &&& p.subtitle == Some(s.status_header@)
            &&& p.detail == Some(
                match s.status_details {
                    Some(d) => d@,
                    None => model,
                },
            )
            &&& p.notification_count == 0
        }),
{
}

/// Discord shows nothing before the session has a thread. Then it shows
/// `Working in` and the location as details; the tokens used, followed by
/// the context left when it is known, as state; and the model text (the
/// status line's model, else the display name) as small text, with that
/// text's badge as small image.
pub proof fn lemma_presence_snapshot_fields(s: ChatStatus)
    ensures
        (presence_snapshot_for(s) is None <==> !s.has_thread),
        ({
            let model = match s.status_line_model {
                Some(m) => m@,
                None => s.model_display_name@,
            };
            let used = s.tokens_used@ + " tokens used"@;
            presence_snapshot_for(s) matches Some(p) ==> {
                &&& p.details == "Working in "@ + s.location@
                &&& (s.context_remaining_percent is None ==> p.state == Some(used))
                &&& (s.context_remaining_percent matches Some(c) ==> p.state == Some(
                    used + " · "@ + decimal_i64(c) + "% context left"@,
                ))
                &&& p.small_text == Some(model)
                &&& p.small_image == Some(badge_for(model))
            }
        }),
{
}

} // verus!
