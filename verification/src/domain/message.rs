//! Chat messages.

use vstd::prelude::*;

use crate::json::Json;
use crate::time::Timestamp;

verus! {

/// A piece of a mixed message.
#[derive(Debug, PartialEq, Eq)]
pub enum MixedContentSegment {
    Text(String),
    Image { url: Option<String>, path: Option<String> },
    Mention { participant_id: i64, display_name: String },
}

/// What a message holds.
#[derive(Debug, PartialEq, Eq)]
pub enum MessageContent {
    Text(String),
    Image { url: Option<String>, path: Option<String>, description: Option<String> },
    File { url: Option<String>, path: Option<String>, filename: String },
    Mixed(Vec<MixedContentSegment>),
    Other(String),
}

/// A file that comes with a message.
#[derive(Debug)]
pub struct Attachment {
    pub filename: String,
    pub url: Option<String>,
    pub path: Option<String>,
    pub mime_type: Option<String>,
    pub size: Option<u64>,
}

/// A message in a conversation.
#[derive(Debug)]
pub struct Message {
    pub id: i64,
    pub conversation_id: i64,
    pub sender_id: i64,
    pub content: MessageContent,
    pub timestamp: Timestamp,
    pub reply_to: Option<i64>,
    pub mentions: Vec<i64>,
    pub attachments: Vec<Attachment>,
    pub metadata: Json,
}

} // verus!
