//! The chat message and the length rule on its two short fields.

use vstd::prelude::*;
use vstd::string::StrSliceExecFns;

verus! {

/// The largest number of characters that `room` and `username` may hold.
pub const MAX_FIELD_CHARS: usize = 30;

/// What a [`Message`] is in specifications: its three texts as sequences of
/// characters.
pub struct MessageView {
    pub room: Seq<char>,
    pub username: Seq<char>,
    pub message: Seq<char>,
}

/// Why a submitted message is turned away before it reaches the hub.
#[derive(Clone, Copy, Debug, PartialEq, Eq, Structural)]
pub enum ValidationError {
    /// `room` holds more than [`MAX_FIELD_CHARS`] characters.
    RoomTooLong,
    /// `room` is short enough, `username` holds more than
    /// [`MAX_FIELD_CHARS`] characters.
    UsernameTooLong,
}

impl MessageView {
    /// The length rule. `room` is looked at first, so a message with two
    /// long fields is reported for its room. `message` is never limited.
    pub open spec fn check(self) -> Result<(), ValidationError> {
        if self.room.len() > MAX_FIELD_CHARS {
            Err(ValidationError::RoomTooLong)
        } else if self.username.len() > MAX_FIELD_CHARS {
            Err(ValidationError::UsernameTooLong)
        } else {
            Ok(())
        }
    }

    /// Both short fields are within the limit.
    pub open spec fn is_valid(self) -> bool {
        self.room.len() <= MAX_FIELD_CHARS && self.username.len() <= MAX_FIELD_CHARS
    }
}

/// One chat message. `room` is a label only: nothing is partitioned or
/// filtered by it.
#[derive(Debug, PartialEq, Eq)]
pub struct Message {
    pub room: String,
    pub username: String,
    pub message: String,
}

impl View for Message {
    type V = MessageView;

    open spec fn view(&self) -> MessageView {
        MessageView { room: self.room@, username: self.username@, message: self.message@ }
    }
}

impl Clone for Message {
    /// A copy with the same three texts.
    fn clone(&self) -> (copy: Message)
        ensures
            copy@ == self@,
    {
        Message {
            room: self.room.clone(),
            username: self.username.clone(),
            message: self.message.clone(),
        }
    }
}

impl Message {
    /// Applies the length rule: `Ok` exactly when `room` and `username` hold
    /// at most [`MAX_FIELD_CHARS`] characters each, else the error of the
    /// first field that is too long.
    pub fn validate(&self) -> (verdict: Result<(), ValidationError>)
        ensures
            verdict == self@.check(),
            verdict.is_ok() <==> self@.is_valid(),
    {
        if self.room.as_str().unicode_len() > MAX_FIELD_CHARS {
            Err(ValidationError::RoomTooLong)
        } else if self.username.as_str().unicode_len() > MAX_FIELD_CHARS {
            Err(ValidationError::UsernameTooLong)
        } else {
            Ok(())
        }
    }
}

} // verus!
