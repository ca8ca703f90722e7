use chat::message::{Message, ValidationError, MAX_FIELD_CHARS};

fn with_lengths(room: usize, username: usize, message: usize) -> Message {
    Message {
        room: "r".repeat(room),
        username: "u".repeat(username),
        message: "m".repeat(message),
    }
}

#[test]
fn limit_is_thirty_characters() {
    assert_eq!(MAX_FIELD_CHARS, 30);
}

#[test]
fn username_of_thirty_characters_is_accepted() {
    assert_eq!(with_lengths(5, 30, 2).validate(), Ok(()));
}

#[test]
fn username_of_thirty_one_characters_is_rejected() {
    assert_eq!(
        with_lengths(5, 31, 2).validate(),
        Err(ValidationError::UsernameTooLong)
    );
}

#[test]
fn room_of_thirty_characters_is_accepted() {
    assert_eq!(with_lengths(30, 30, 0).validate(), Ok(()));
}

#[test]
fn room_of_thirty_one_characters_is_rejected() {
    assert_eq!(
        with_lengths(31, 5, 2).validate(),
        Err(ValidationError::RoomTooLong)
    );
}

#[test]
fn room_is_reported_before_username() {
    assert_eq!(
        with_lengths(40, 40, 2).validate(),
        Err(ValidationError::RoomTooLong)
    );
}

#[test]
fn empty_fields_are_accepted() {
    assert_eq!(with_lengths(0, 0, 0).validate(), Ok(()));
}

#[test]
fn message_text_is_not_limited() {
    assert_eq!(with_lengths(1, 1, 100_000).validate(), Ok(()));
}

#[test]
fn length_is_counted_in_characters() {
    let accented = Message {
        room: "é".repeat(30),
        username: "ü".repeat(30),
        message: String::new(),
    };
    assert_eq!(accented.room.len(), 60);
    assert_eq!(accented.validate(), Ok(()));
    let too_long = Message {
        room: "lobby".to_string(),
        username: "ü".repeat(31),
        message: String::new(),
    };
    assert_eq!(too_long.validate(), Err(ValidationError::UsernameTooLong));
}
