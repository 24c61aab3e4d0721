//! Chats and the messages exchanged in them.

use crate::user::UserId;
use vstd::prelude::*;

verus! {

/// A message posted to a chat.
#[derive(Clone, Debug)]
pub struct ChatMessage {
    pub id: i32,
    /// When the message was posted, in seconds since the Unix epoch, UTC.
    pub created_at: i64,
    pub author: UserId,
    pub txt: String,
}

/// Identifier of a chat.
#[derive(Debug, Copy, Clone, PartialEq, Eq, Structural)]
pub struct ChatId(pub i32);

/// A chat and the users who take part in it.
#[derive(Debug, Clone)]
pub struct Chat {
    pub id: ChatId,
    pub members: Vec<UserId>,
}

/// A list of chats.
#[derive(Debug)]
pub struct Chats(pub Vec<Chat>);

impl Default for Chats {
    fn default() -> (chats: Chats)
        ensures
            chats.0@.len() == 0,
    {
        Chats(Vec::new())
    }
}

} // verus!
