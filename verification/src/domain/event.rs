//! Events that run through the core, free of platform types.

use vstd::prelude::*;

use crate::time::Timestamp;

verus! {

/// Where a response came from.
#[derive(Debug, Clone, Copy, PartialEq, Eq, Structural)]
pub enum ResponseSource {
    Rule,
    Llm,
    Plugin,
}

/// A message arrived.
#[derive(Debug)]
pub struct MessageReceivedEvent {
    pub conversation_id: i64,
    pub sender_id: i64,
    pub message_id: i64,
    pub content: String,
    pub timestamp: Timestamp,
    /// The sender mentioned the character.
    pub is_mentioned: bool,
}

/// A message went out.
#[derive(Debug)]
pub struct MessageSentEvent {
    pub conversation_id: i64,
    pub character_id: Option<i64>,
    pub message_id: i64,
    pub content: String,
    pub timestamp: Timestamp,
}

/// A character's state changed.
#[derive(Debug, Clone, Copy, PartialEq, Eq, Structural)]
pub struct CharacterStateChangedEvent {
    pub character_id: i64,
    pub timestamp: Timestamp,
}

/// A character's emotion changed.
#[derive(Debug, Clone, Copy, PartialEq, Eq, Structural)]
pub struct EmotionChangedEvent {
    pub character_id: i64,
    pub conversation_id: i64,
    pub timestamp: Timestamp,
}

/// A relationship changed.
#[derive(Debug, Clone, Copy, PartialEq, Eq, Structural)]
pub struct RelationshipChangedEvent {
    pub character_id: i64,
    pub participant_id: i64,
    pub timestamp: Timestamp,
}

/// A memory was created.
#[derive(Debug, Clone, Copy, PartialEq, Eq, Structural)]
pub struct MemoryCreatedEvent {
    pub character_id: i64,
    pub memory_id: i64,
    pub timestamp: Timestamp,
}

/// A decision was taken.
#[derive(Debug)]
pub struct BehaviorDecidedEvent {
    pub character_id: i64,
    pub conversation_id: i64,
    pub action: String,
    pub reason: String,
    pub timestamp: Timestamp,
}

/// A response was made.
#[derive(Debug)]
pub struct ResponseGeneratedEvent {
    pub character_id: i64,
    pub conversation_id: i64,
    pub content: String,
    pub source: ResponseSource,
    pub timestamp: Timestamp,
}

/// An adapter connected.
#[derive(Debug)]
pub struct AdapterConnectedEvent {
    pub adapter_name: String,
    pub timestamp: Timestamp,
}

/// An adapter lost its connection.
#[derive(Debug)]
pub struct AdapterDisconnectedEvent {
    pub adapter_name: String,
    pub reason: Option<String>,
    pub timestamp: Timestamp,
}

/// A scheduled task came due.
#[derive(Debug)]
pub struct ScheduledTaskTriggeredEvent {
    pub task_id: i64,
    pub task_type: String,
    pub timestamp: Timestamp,
}

/// A system command.
#[derive(Debug, PartialEq, Eq)]
pub enum Command {
    /// Put another character into the conversation.
    SwitchCharacter { character_name: String },
}

/// A system command arrived.
#[derive(Debug)]
pub struct CommandReceivedEvent {
    pub conversation_id: i64,
    pub sender_id: i64,
    /// The sender's name on the platform.
    pub external_sender_id: String,
    pub message_id: i64,
    pub content: String,
    pub timestamp: Timestamp,
    pub command: Command,
}

/// An event of the core.
#[derive(Debug)]
pub enum CoreEvent {
    MessageReceived(MessageReceivedEvent),
    MessageSent(MessageSentEvent),
    CharacterStateChanged(CharacterStateChangedEvent),
    EmotionChanged(EmotionChangedEvent),
    RelationshipChanged(RelationshipChangedEvent),
    MemoryCreated(MemoryCreatedEvent),
    BehaviorDecided(BehaviorDecidedEvent),
    ResponseGenerated(ResponseGeneratedEvent),
    AdapterConnected(AdapterConnectedEvent),
    AdapterDisconnected(AdapterDisconnectedEvent),
    ScheduledTaskTriggered(ScheduledTaskTriggeredEvent),
    CommandReceived(CommandReceivedEvent),
}

} // verus!
