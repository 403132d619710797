//! Executing actions: from a conversation to an address on the platform.

use vstd::prelude::*;

use crate::domain::behavior::Action;
use crate::domain::conversation::{Conversation, ConversationType};
use crate::error::{DomainError, RepositoryError, RuntimeError};

verus! {

/// A message for the adapter.
#[derive(Debug)]
pub enum Delivery {
    Group { group_id: String, content: String },
    Private { user_id: String, content: String },
}

/// The conversation that must be looked up for an action; nothing for actions that
/// are not carried out.
pub fn conversation_of(action: &Action) -> (r: Option<i64>)
    ensures
        match action {
            Action::SendMessage { conversation_id, .. } => r == Some(*conversation_id),
            _ => r is None,
        },
{
    match action {
        Action::SendMessage { conversation_id, content: _ } => Some(*conversation_id),
        _ => None,
    }
}

/// Turns an action into a message for the adapter. Sending a message needs its
/// conversation; every other action leads to nothing.
pub fn execute(action: Action, conversation: Result<Option<Conversation>, RepositoryError>) -> (r:
    Result<Option<Delivery>, RuntimeError>)
    ensures
        match action {
            Action::SendMessage { conversation_id, content } => match conversation {
                Err(e) => r == Err::<Option<Delivery>, RuntimeError>(RuntimeError::Repository(e)),
                Ok(None) => r == Err::<Option<Delivery>, RuntimeError>(
                    RuntimeError::Domain(DomainError::ConversationNotFound(conversation_id)),
                ),
                Ok(Some(c)) => match c.conversation_type {
                    ConversationType::Group => r == Ok::<Option<Delivery>, RuntimeError>(
                        Some(Delivery::Group { group_id: c.external_id, content }),
                    ),
                    ConversationType::Private => r == Ok::<Option<Delivery>, RuntimeError>(
                        Some(Delivery::Private { user_id: c.external_id, content }),
                    ),
                },
            },
            _ => r == Ok::<Option<Delivery>, RuntimeError>(None),
        },
{
    match action {
        Action::SendMessage { conversation_id, content } => match conversation {
            Err(e) => Err(RuntimeError::Repository(e)),
            Ok(None) => Err(
                RuntimeError::Domain(DomainError::ConversationNotFound(conversation_id)),
            ),
            Ok(Some(c)) => match c.conversation_type {
                ConversationType::Group => Ok(
                    Some(Delivery::Group { group_id: c.external_id, content }),
                ),
                ConversationType::Private => Ok(
                    Some(Delivery::Private { user_id: c.external_id, content }),
                ),
            },
        },
        _ => Ok(None),
    }
}

/// A message to be sent goes to the place that its conversation has on the platform,
/// as a group's or as a user's, with its content; without the conversation it fails,
/// and other actions send nothing.
pub proof fn messages_are_addressed(
    conversation_id: i64,
    content: String,
    c: Conversation,
    other: Action,
    found: Result<Option<Conversation>, RepositoryError>,
    sent: Result<Option<Delivery>, RuntimeError>,
    lost: Result<Option<Delivery>, RuntimeError>,
    quiet: Result<Option<Delivery>, RuntimeError>,
)
    requires
        call_ensures(
            execute,
            (
                Action::SendMessage { conversation_id, content },
                Ok::<Option<Conversation>, RepositoryError>(Some(c)),
            ),
            sent,
        ),
        call_ensures(
            execute,
            (
                Action::SendMessage { conversation_id, content },
                Ok::<Option<Conversation>, RepositoryError>(None),
            ),
            lost,
        ),
        call_ensures(execute, (other, found), quiet),
        !(other is SendMessage),
    ensures
        c.conversation_type == ConversationType::Group ==> sent == Ok::<
            Option<Delivery>,
            RuntimeError,
        >(Some(Delivery::Group { group_id: c.external_id, content })),
        c.conversation_type == ConversationType::Private ==> sent == Ok::<
            Option<Delivery>,
            RuntimeError,
        >(Some(Delivery::Private { user_id: c.external_id, content })),
        lost == Err::<Option<Delivery>, RuntimeError>(
            RuntimeError::Domain(DomainError::ConversationNotFound(conversation_id)),
        ),
        quiet == Ok::<Option<Delivery>, RuntimeError>(None),
{
}

/// The conversation of a message to be sent is looked up, and for nothing else any.
pub proof fn addresses_are_looked_up(action: Action, r: Option<i64>)
    requires
        call_ensures(conversation_of, (&action,), r),
    ensures
        r is Some <==> action is SendMessage,
        action matches Action::SendMessage { conversation_id, .. } ==> r == Some(conversation_id),
{
}

} // verus!
