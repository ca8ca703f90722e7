use chat::hub::{MessageOrGap, PublishOutcome};
use chat::message::{Message, ValidationError};
use chat::server::{post, rocket, BUFFER_CAPACITY};
use chat::stream::{next_event, StreamStep};

fn msg(room: &str, username: &str, message: &str) -> Message {
    Message {
        room: room.to_string(),
        username: username.to_string(),
        message: message.to_string(),
    }
}

#[test]
fn server_starts_with_an_empty_hub_of_1024() {
    let queue = rocket();
    assert_eq!(BUFFER_CAPACITY, 1024);
    assert_eq!(queue.capacity(), 1024);
    assert_eq!(queue.sequence(), 0);
    assert_eq!(queue.len(), 0);
    assert_eq!(queue.subscribers(), 0);
    assert!(!queue.is_closed());
}

#[test]
fn post_without_subscribers_is_no_error() {
    let mut queue = rocket();
    assert_eq!(
        post(msg("lobby", "alice", "hi"), &mut queue),
        Ok(PublishOutcome::NoSubscribers)
    );
    assert_eq!(queue.sequence(), 1);
}

#[test]
fn post_with_a_subscriber_is_delivered() {
    let mut queue = rocket();
    let mut cursor = queue.subscribe();
    assert_eq!(
        post(msg("lobby", "alice", "hi"), &mut queue),
        Ok(PublishOutcome::Delivered)
    );
    assert_eq!(
        cursor.receive(&queue),
        Some(MessageOrGap::Message(msg("lobby", "alice", "hi")))
    );
}

#[test]
fn post_accepts_a_username_of_thirty_characters() {
    let mut queue = rocket();
    let name = "a".repeat(30);
    assert_eq!(
        post(msg("lobby", &name, "hi"), &mut queue),
        Ok(PublishOutcome::NoSubscribers)
    );
    assert_eq!(queue.sequence(), 1);
}

#[test]
fn post_rejects_a_username_of_thirty_one_characters_before_the_hub() {
    let mut queue = rocket();
    let mut cursor = queue.subscribe();
    let name = "a".repeat(31);
    assert_eq!(
        post(msg("lobby", &name, "hi"), &mut queue),
        Err(ValidationError::UsernameTooLong)
    );
    assert_eq!(queue.sequence(), 0);
    assert_eq!(queue.len(), 0);
    assert_eq!(cursor.receive(&queue), None);
}

#[test]
fn post_rejects_a_long_room_before_the_hub() {
    let mut queue = rocket();
    let room = "r".repeat(31);
    assert_eq!(
        post(msg(&room, "alice", "hi"), &mut queue),
        Err(ValidationError::RoomTooLong)
    );
    assert_eq!(queue.sequence(), 0);
}

#[test]
fn end_to_end_scenario() {
    let mut queue = rocket();
    let mut before = queue.subscribe();
    assert_eq!(
        post(msg("lobby", "alice", "hi"), &mut queue),
        Ok(PublishOutcome::Delivered)
    );
    let mut after = queue.subscribe();

    match next_event(&queue, &mut before, false) {
        StreamStep::Emit(got) => {
            assert_eq!(got.room, "lobby");
            assert_eq!(got.username, "alice");
            assert_eq!(got.message, "hi");
        }
        other => panic!("expected the message, got {:?}", other),
    }
    assert_eq!(next_event(&queue, &mut before, false), StreamStep::Wait);
    assert_eq!(next_event(&queue, &mut after, false), StreamStep::Wait);

    post(msg("lobby", "bob", "hello"), &mut queue).unwrap();
    assert_eq!(
        next_event(&queue, &mut before, false),
        StreamStep::Emit(msg("lobby", "bob", "hello"))
    );
    assert_eq!(
        next_event(&queue, &mut after, false),
        StreamStep::Emit(msg("lobby", "bob", "hello"))
    );
}

#[test]
fn stalled_subscriber_of_the_server_hub_resumes_at_the_oldest() {
    let mut queue = rocket();
    let mut stalled = queue.subscribe();
    for n in 0..1025u64 {
        post(msg("lobby", "alice", &n.to_string()), &mut queue).unwrap();
    }
    assert_eq!(queue.len(), 1024);
    assert_eq!(queue.oldest(), 1);
    assert_eq!(
        next_event(&queue, &mut stalled, false),
        StreamStep::Emit(msg("lobby", "alice", "1"))
    );
    assert_eq!(stalled.position(), 2);
    for n in 2..1025u64 {
        assert_eq!(
            next_event(&queue, &mut stalled, false),
            StreamStep::Emit(msg("lobby", "alice", &n.to_string()))
        );
    }
    assert_eq!(next_event(&queue, &mut stalled, false), StreamStep::Wait);
}

#[test]
fn exactly_1024_pending_messages_lose_nothing() {
    let mut queue = rocket();
    let mut stalled = queue.subscribe();
    for n in 0..1024u64 {
        post(msg("lobby", "alice", &n.to_string()), &mut queue).unwrap();
    }
    assert_eq!(queue.oldest(), 0);
    assert_eq!(
        stalled.receive(&queue),
        Some(MessageOrGap::Message(msg("lobby", "alice", "0")))
    );
}
