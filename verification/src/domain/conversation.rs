//! Conversations and those who take part in them.

use vstd::prelude::*;

use crate::json::Json;
use crate::time::Timestamp;

verus! {

/// Whether a conversation is between two or among many.
#[derive(Debug, Clone, Copy, PartialEq, Eq, Structural)]
pub enum ConversationType {
    Private,
    Group,
}

impl Default for ConversationType {
    fn default() -> (r: ConversationType)
        ensures
            r == ConversationType::Private,
    {
        ConversationType::Private
    }
}

/// A conversation.
#[derive(Debug)]
pub struct Conversation {
    pub id: i64,
    pub conversation_type: ConversationType,
    /// Its name on the platform (such as a group number); never interpreted here.
    pub external_id: String,
    pub name: Option<String>,
    pub created_at: Timestamp,
    pub updated_at: Timestamp,
}

/// What part someone plays in a conversation.
#[derive(Debug, Clone, Copy, PartialEq, Eq, Structural)]
pub enum ParticipantRole {
    User,
    Character,
    System,
}

/// Someone who takes part in a conversation.
#[derive(Debug)]
pub struct Participant {
    pub id: i64,
    pub conversation_id: i64,
    /// The name on the platform (such as a user number); never interpreted here.
    pub external_id: String,
    pub display_name: String,
    pub role: ParticipantRole,
    pub metadata: Json,
}

} // verus!
