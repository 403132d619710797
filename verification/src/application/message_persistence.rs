//! Which messages are stored.

use vstd::prelude::*;

use crate::domain::event::CoreEvent;
use crate::domain::message::{Message, MessageContent};
use crate::json::{Json, JsonView};

verus! {

/// The message to be stored for an event: one for every message that was received,
/// none for anything else.
pub fn handle(event: &CoreEvent) -> (r: Option<Message>)
    ensures
        match event {
            CoreEvent::MessageReceived(e) => r matches Some(m) && ({
                &&& m.id == 0
                &&& m.conversation_id == e.conversation_id
                &&& m.sender_id == e.sender_id
                &&& (m.content matches MessageContent::Text(s) && s@ == e.content@)
                &&& m.timestamp == e.timestamp
                &&& m.reply_to is None
                &&& m.mentions@.len() == 0
                &&& m.attachments@.len() == 0
                &&& m.metadata.model() == JsonView::Object(Seq::empty())
            }),
            _ => r is None,
        },
{
    match event {
        CoreEvent::MessageReceived(e) => Some(
            Message {
                id: 0,
                conversation_id: e.conversation_id,
                sender_id: e.sender_id,
                content: MessageContent::Text(e.content.clone()),
                timestamp: e.timestamp,
                reply_to: None,
                mentions: Vec::new(),
                attachments: Vec::new(),
                metadata: Json::empty_object(),
            },
        ),
        _ => None,
    }
}

/// Every message that was received is stored as text, with its conversation, its
/// sender and its time, and nothing else is stored.
pub proof fn received_messages_are_stored(event: CoreEvent, r: Option<Message>)
    requires
        call_ensures(handle, (&event,), r),
    ensures
        r is Some <==> event is MessageReceived,
        event matches CoreEvent::MessageReceived(e) ==> (r matches Some(m) && m.conversation_id
            == e.conversation_id && m.sender_id == e.sender_id && m.timestamp == e.timestamp
            && m.content is Text && m.content->Text_0@ == e.content@ && m.reply_to is None
            && m.mentions@.len() == 0 && m.attachments@.len() == 0 && m.id == 0),
{
}

} // verus!
