//! What the dispatch core reads of an update: its number, what it carries,
//! and the chat that a message belongs to.

use crate::dialogue::GetChatId;
use vstd::prelude::*;

verus! {

/// The kind of a chat.
#[derive(Clone, Copy, Debug, PartialEq, Eq, Structural)]
pub enum ChatKind {
    Private,
    Group,
    Supergroup,
    Channel,
}

/// A chat.
#[derive(Clone, Copy, Debug, PartialEq, Eq, Structural)]
pub struct Chat {
    pub id: i64,
    pub kind: ChatKind,
}

impl Chat {
    /// Whether the chat is a group; a supergroup is none.
    pub fn is_group(&self) -> (yes: bool)
        ensures
            yes == (self.kind == ChatKind::Group),
    {
        self.kind == ChatKind::Group
    }

    /// Whether the chat is a supergroup.
    pub fn is_supergroup(&self) -> (yes: bool)
        ensures
            yes == (self.kind == ChatKind::Supergroup),
    {
        self.kind == ChatKind::Supergroup
    }

    /// Whether the chat is a private one.
    pub fn is_private(&self) -> (yes: bool)
        ensures
            yes == (self.kind == ChatKind::Private),
    {
        self.kind == ChatKind::Private
    }
}

/// A message.
#[derive(Clone, Debug)]
pub struct Message {
    pub id: i32,
    pub chat: Chat,
    pub text: Option<String>,
}

impl GetChatId for Message {
    /// The ID of the chat that the message was sent to.
    fn chat_id(&self) -> (id: i64)
        ensures
            id == self.chat.id,
    {
        self.chat.id
    }
}

/// What an update carries.
#[derive(Clone, Debug)]
pub enum UpdateKind {
    /// A new message.
    Message(Message),
    /// A new version of a message.
    EditedMessage(Message),
    /// Anything else.
    Other,
}

/// An update: one event from the messaging platform.
#[derive(Clone, Debug)]
pub struct Update {
    /// The number of the update in the platform's sequence.
    pub id: i32,
    pub kind: UpdateKind,
}

impl Update {
    /// The new message that the update carries, if it carries one.
    pub open spec fn new_message(self) -> Option<Message> {
        match self.kind {
            UpdateKind::Message(message) => Some(message),
            _ => None,
        }
    }

    /// The new message that the update carries, if it carries one. An
    /// edited message is none.
    pub fn message(&self) -> (message: Option<&Message>)
        ensures
            message == match self.new_message() {
                Some(m) => Some(&m),
                None => None,
            },
    {
        match &self.kind {
            UpdateKind::Message(message) => Some(message),
            _ => None,
        }
    }

    /// The chat that the update belongs to: that of the message, new or
    /// edited, that it carries.
    pub fn chat(&self) -> (chat: Option<Chat>)
        ensures
            chat == match self.kind {
                UpdateKind::Message(message) => Some(message.chat),
                UpdateKind::EditedMessage(message) => Some(message.chat),
                UpdateKind::Other => None,
            },
    {
        match &self.kind {
            UpdateKind::Message(message) => Some(message.chat),
            UpdateKind::EditedMessage(message) => Some(message.chat),
            UpdateKind::Other => None,
        }
    }
}

} // verus!
