//! Scenario tests for the presence, naming, messaging and reaction commands.

use chat_core::message::{send_message, toggle_reaction, validate_message};
use chat_core::models::{ChatError, ReactionEmoji};
use chat_core::state::ChatState;
use chat_core::user::{
    identity_connected, identity_disconnected, move_actor, set_name, validate_name,
};

const ALICE: u64 = 11;
const BOB: u64 = 22;
const BOT: u64 = 99;

#[test]
fn empty_name_is_rejected() {
    let mut state = ChatState::new();
    identity_connected(&mut state, ALICE, 1_000);
    let r = set_name(&mut state, ALICE, String::new());
    assert_eq!(r, Err(ChatError::Validation));
    assert_eq!(state.users[0].name, None);
}

#[test]
fn set_name_on_connected_actor_sticks() {
    let mut state = ChatState::new();
    identity_connected(&mut state, ALICE, 1_000);
    let r = set_name(&mut state, ALICE, "Ann".to_string());
    assert_eq!(r, Ok(()));
    assert_eq!(state.users.len(), 1);
    assert_eq!(state.users[0].name.as_deref(), Some("Ann"));
    assert_eq!(state.users[0].identity, ALICE);
    assert!(state.users[0].online);
}

#[test]
fn set_name_without_user_row_is_not_found() {
    let mut state = ChatState::new();
    let r = set_name(&mut state, ALICE, "Ann".to_string());
    assert_eq!(r, Err(ChatError::NotFound));
    assert!(state.users.is_empty());
}

#[test]
fn validate_name_accepts_non_empty() {
    assert_eq!(validate_name("Ann".to_string()), Ok("Ann".to_string()));
    assert_eq!(validate_name(String::new()), Err(ChatError::Validation));
}

#[test]
fn validate_message_accepts_non_empty() {
    assert_eq!(validate_message("hi".to_string()), Ok("hi".to_string()));
    assert_eq!(validate_message(String::new()), Err(ChatError::Validation));
}

#[test]
fn double_connect_keeps_one_row_and_profile() {
    let mut state = ChatState::new();
    identity_connected(&mut state, ALICE, 1_000);
    set_name(&mut state, ALICE, "Ann".to_string()).unwrap();
    move_actor(&mut state, ALICE, 1.0f32.to_bits(), 2.0f32.to_bits(), 1_500).unwrap();
    identity_connected(&mut state, ALICE, 2_000);
    assert_eq!(state.users.len(), 1);
    let u = &state.users[0];
    assert!(u.online);
    assert_eq!(u.name.as_deref(), Some("Ann"));
    assert_eq!(u.x_bits, 1.0f32.to_bits());
    assert_eq!(u.y_bits, 2.0f32.to_bits());
    assert_eq!(u.last_active, 2_000);
}

#[test]
fn first_connect_creates_online_row_at_origin() {
    let mut state = ChatState::new();
    identity_connected(&mut state, BOB, 42);
    assert_eq!(state.users.len(), 1);
    let u = &state.users[0];
    assert_eq!(u.identity, BOB);
    assert_eq!(u.name, None);
    assert!(u.online);
    assert_eq!(u.x_bits, 0.0f32.to_bits());
    assert_eq!(u.y_bits, 0.0f32.to_bits());
    assert_eq!(u.last_active, 42);
}

#[test]
fn disconnect_without_connect_creates_nothing_and_does_not_fail() {
    let mut state = ChatState::new();
    let known = identity_disconnected(&mut state, ALICE);
    assert!(!known);
    assert!(state.users.is_empty());
    assert!(state.messages.is_empty());
}

#[test]
fn disconnect_marks_row_offline_but_keeps_it() {
    let mut state = ChatState::new();
    identity_connected(&mut state, ALICE, 1_000);
    let known = identity_disconnected(&mut state, ALICE);
    assert!(known);
    assert_eq!(state.users.len(), 1);
    assert!(!state.users[0].online);
}

#[test]
fn toggle_reaction_inserts_removes_reinserts() {
    let mut state = ChatState::new();
    assert_eq!(
        toggle_reaction(&mut state, ALICE, 100, 1, ReactionEmoji::ThumbsUp),
        Ok(())
    );
    assert_eq!(state.reactions.len(), 1);
    assert_eq!(state.reactions[0].reaction_id, 1);
    assert_eq!(state.reactions[0].message_id, 1);
    assert_eq!(state.reactions[0].reactor, ALICE);
    assert_eq!(state.reactions[0].emoji, ReactionEmoji::ThumbsUp);
    assert_eq!(state.reactions[0].reacted_at, 100);
    assert_eq!(
        toggle_reaction(&mut state, ALICE, 200, 1, ReactionEmoji::ThumbsUp),
        Ok(())
    );
    assert_eq!(state.reactions.len(), 0);
    assert_eq!(
        toggle_reaction(&mut state, ALICE, 300, 1, ReactionEmoji::ThumbsUp),
        Ok(())
    );
    assert_eq!(state.reactions.len(), 1);
}

#[test]
fn toggle_reaction_distinguishes_triples() {
    let mut state = ChatState::new();
    toggle_reaction(&mut state, ALICE, 100, 1, ReactionEmoji::ThumbsUp).unwrap();
    toggle_reaction(&mut state, ALICE, 101, 1, ReactionEmoji::Heart).unwrap();
    toggle_reaction(&mut state, BOB, 102, 1, ReactionEmoji::ThumbsUp).unwrap();
    toggle_reaction(&mut state, ALICE, 103, 2, ReactionEmoji::ThumbsUp).unwrap();
    assert_eq!(state.reactions.len(), 4);
    // Un-reacting one triple leaves the other three alone.
    toggle_reaction(&mut state, ALICE, 104, 1, ReactionEmoji::Heart).unwrap();
    assert_eq!(state.reactions.len(), 3);
    assert!(state
        .reactions
        .iter()
        .all(|r| !(r.message_id == 1 && r.reactor == ALICE && r.emoji == ReactionEmoji::Heart)));
}

#[test]
fn reaction_ids_are_unique_across_reinsertions() {
    let mut state = ChatState::new();
    toggle_reaction(&mut state, ALICE, 100, 1, ReactionEmoji::Wow).unwrap();
    let first_id = state.reactions[0].reaction_id;
    toggle_reaction(&mut state, ALICE, 200, 1, ReactionEmoji::Wow).unwrap();
    toggle_reaction(&mut state, ALICE, 300, 1, ReactionEmoji::Wow).unwrap();
    let second_id = state.reactions[0].reaction_id;
    assert!(second_id > first_id);
}

#[test]
fn move_while_offline_fails_and_keeps_position() {
    let mut state = ChatState::new();
    identity_connected(&mut state, ALICE, 1_000);
    move_actor(&mut state, ALICE, 1.0f32.to_bits(), 2.0f32.to_bits(), 1_100).unwrap();
    identity_disconnected(&mut state, ALICE);
    let r = move_actor(&mut state, ALICE, 5.0f32.to_bits(), 7.0f32.to_bits(), 1_200);
    assert_eq!(r, Err(ChatError::Offline));
    assert_eq!(state.users[0].x_bits, 1.0f32.to_bits());
    assert_eq!(state.users[0].y_bits, 2.0f32.to_bits());
    assert_eq!(state.users[0].last_active, 1_100);
}

#[test]
fn move_without_user_row_is_not_found() {
    let mut state = ChatState::new();
    let r = move_actor(&mut state, ALICE, 5.0f32.to_bits(), 7.0f32.to_bits(), 1_000);
    assert_eq!(r, Err(ChatError::NotFound));
    assert!(state.users.is_empty());
}

#[test]
fn move_while_online_updates_position_and_activity() {
    let mut state = ChatState::new();
    identity_connected(&mut state, ALICE, 1_000);
    let r = move_actor(&mut state, ALICE, 5.0f32.to_bits(), 7.0f32.to_bits(), 1_300);
    assert_eq!(r, Ok(()));
    assert_eq!(state.users[0].x_bits, 5.0f32.to_bits());
    assert_eq!(state.users[0].y_bits, 7.0f32.to_bits());
    assert_eq!(state.users[0].last_active, 1_300);
}

#[test]
fn send_message_records_sender_text_and_time() {
    let mut state = ChatState::new();
    let r = send_message(&mut state, BOT, 5_000, "hi".to_string());
    assert_eq!(r, Ok(()));
    assert_eq!(state.messages.len(), 1);
    assert_eq!(state.messages[0].sender, BOT);
    assert_eq!(state.messages[0].text, "hi");
    assert_eq!(state.messages[0].sent, 5_000);
    assert_eq!(state.messages[0].message_id, 1);
    assert_eq!(state.next_message_id, 2);
}

#[test]
fn empty_message_is_rejected_and_changes_nothing() {
    let mut state = ChatState::new();
    let r = send_message(&mut state, BOT, 5_000, String::new());
    assert_eq!(r, Err(ChatError::Validation));
    assert!(state.messages.is_empty());
    assert_eq!(state.next_message_id, 1);
}

#[test]
fn message_ids_are_strictly_increasing_and_unique() {
    let mut state = ChatState::new();
    for k in 0..5 {
        send_message(&mut state, BOT, 5_000 + k, "hi".to_string()).unwrap();
    }
    for w in state.messages.windows(2) {
        assert!(w[0].message_id < w[1].message_id);
    }
    for i in 0..state.messages.len() {
        for j in 0..state.messages.len() {
            if i != j {
                assert_ne!(state.messages[i].message_id, state.messages[j].message_id);
            }
        }
    }
}

#[test]
fn send_message_touches_no_user_row() {
    let mut state = ChatState::new();
    identity_connected(&mut state, ALICE, 1_000);
    send_message(&mut state, ALICE, 9_000, "hello".to_string()).unwrap();
    // No last-active bump on message send: an explicit non-goal.
    assert_eq!(state.users[0].last_active, 1_000);
}

#[test]
fn emoji_strings_match_variants() {
    assert_eq!(ReactionEmoji::ThumbsUp.to_emoji(), "👍");
    assert_eq!(ReactionEmoji::Heart.to_emoji(), "❤️");
    assert_eq!(ReactionEmoji::Laugh.to_emoji(), "😂");
    assert_eq!(ReactionEmoji::Party.to_emoji(), "🎉");
    assert_eq!(ReactionEmoji::Wow.to_emoji(), "😮");
    assert_eq!(ReactionEmoji::Rocket.to_emoji(), "🚀");
}
