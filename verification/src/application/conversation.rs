//! From the names of a platform to the numbers of the core.

use vstd::prelude::*;

use crate::domain::conversation::{Conversation, ConversationType, Participant, ParticipantRole};
use crate::error::{DomainError, RepositoryError, RuntimeError};
use crate::json::{Json, JsonView};
use crate::text::{concat, owned};
use crate::time::Timestamp;

verus! {

/// A message whose names are resolved.
#[derive(Debug)]
pub struct ResolvedMessage {
    pub conversation_id: i64,
    pub sender_id: i64,
    pub platform_message_id: Option<i64>,
    pub content: String,
    pub timestamp: Timestamp,
}

/// What resolving a name comes to.
#[derive(Debug)]
pub enum Resolution<T> {
    /// It is known under this number.
    Known(i64),
    /// It is new: this is to be stored.
    Create(T),
}

/// Resolves the name of a conversation. One that is known must be of the kind
/// that is expected.
pub fn resolve_or_create_conversation(
    conversation_type: ConversationType,
    external_id: &str,
    found: Result<Option<Conversation>, RepositoryError>,
    now: Timestamp,
) -> (r: Result<Resolution<Conversation>, RuntimeError>)
    ensures
        match found {
            Err(e) => r == Err::<Resolution<Conversation>, RuntimeError>(
                RuntimeError::Repository(e),
            ),
            Ok(Some(c)) => if c.conversation_type == conversation_type {
                r == Ok::<Resolution<Conversation>, RuntimeError>(Resolution::Known(c.id))
            } else {
                r matches Err(RuntimeError::Domain(DomainError::InvalidState(s))) && s@
                    == "外部会话 "@ + external_id@ + " 已存在但类型不一致"@
            },
            Ok(None) => r matches Ok(Resolution::Create(c)) && ({
                &&& c.id == 0
                &&& c.conversation_type == conversation_type
                &&& c.external_id@ == external_id@
                &&& c.name is None
                &&& c.created_at == now
                &&& c.updated_at == now
            }),
        },
{
    match found {
        Err(e) => Err(RuntimeError::Repository(e)),
        Ok(Some(c)) => {
            if c.conversation_type != conversation_type {
                let head = concat("外部会话 ", external_id);
                return Err(
                    RuntimeError::Domain(
                        DomainError::InvalidState(concat(head.as_str(), " 已存在但类型不一致")),
                    ),
                );
            }
            Ok(Resolution::Known(c.id))
        },
        Ok(None) => Ok(
            Resolution::Create(
                Conversation {
                    id: 0,
                    conversation_type,
                    external_id: owned(external_id),
                    name: None,
                    created_at: now,
                    updated_at: now,
                },
            ),
        ),
    }
}

/// Resolves the name of a participant of a conversation. The display name is used
/// only for a new one.
pub fn resolve_or_create_participant(
    conversation_id: i64,
    external_id: &str,
    display_name: &str,
    found: Result<Option<Participant>, RepositoryError>,
) -> (r: Result<Resolution<Participant>, RuntimeError>)
    ensures
        match found {
            Err(e) => r == Err::<Resolution<Participant>, RuntimeError>(
                RuntimeError::Repository(e),
            ),
            Ok(Some(p)) => r == Ok::<Resolution<Participant>, RuntimeError>(
                Resolution::Known(p.id),
            ),
            Ok(None) => r matches Ok(Resolution::Create(p)) && ({
                &&& p.id == 0
                &&& p.conversation_id == conversation_id
                &&& p.external_id@ == external_id@
                &&& p.display_name@ == display_name@
                &&& p.role == ParticipantRole::User
                &&& p.metadata.model() == JsonView::Object(Seq::empty())
            }),
        },
{
    match found {
        Err(e) => Err(RuntimeError::Repository(e)),
        Ok(Some(p)) => Ok(Resolution::Known(p.id)),
        Ok(None) => Ok(
            Resolution::Create(
                Participant {
                    id: 0,
                    conversation_id,
                    external_id: owned(external_id),
                    display_name: owned(display_name),
                    role: ParticipantRole::User,
                    metadata: Json::empty_object(),
                },
            ),
        ),
    }
}

/// The number in the end: the known one, or the one that storing gave.
pub fn resolved_id<T>(resolution: &Resolution<T>, stored: Result<i64, RepositoryError>) -> (r: Result<
    i64,
    RuntimeError,
>)
    ensures
        match (resolution, stored) {
            (Resolution::Known(id), _) => r == Ok::<i64, RuntimeError>(*id),
            (Resolution::Create(_), Ok(id)) => r == Ok::<i64, RuntimeError>(id),
            (Resolution::Create(_), Err(e)) => r == Err::<i64, RuntimeError>(
                RuntimeError::Repository(e),
            ),
        },
{
    match resolution {
        Resolution::Known(id) => Ok(*id),
        Resolution::Create(_) => match stored {
            Ok(id) => Ok(id),
            Err(e) => Err(RuntimeError::Repository(e)),
        },
    }
}

/// A conversation that is known goes by its number where it is of the kind that is
/// expected, and is refused else; a new one gets the name and the kind that were
/// given.
pub proof fn conversations_are_known_or_new(
    kind: ConversationType,
    external_id: &str,
    c: Conversation,
    now: Timestamp,
    known: Result<Resolution<Conversation>, RuntimeError>,
    fresh: Result<Resolution<Conversation>, RuntimeError>,
)
    requires
        call_ensures(
            resolve_or_create_conversation,
            (kind, external_id, Ok::<Option<Conversation>, RepositoryError>(Some(c)), now),
            known,
        ),
        call_ensures(
            resolve_or_create_conversation,
            (kind, external_id, Ok::<Option<Conversation>, RepositoryError>(None), now),
            fresh,
        ),
    ensures
        c.conversation_type == kind ==> known == Ok::<Resolution<Conversation>, RuntimeError>(
            Resolution::Known(c.id),
        ),
        c.conversation_type != kind ==> known is Err,
        fresh matches Ok(Resolution::Create(n)) && n.conversation_type == kind && n.external_id@
            == external_id@ && n.id == 0 && n.name is None && n.created_at == now && n.updated_at
            == now,
{
}

/// A participant that is known goes by its number; a new one is a user of the
/// conversation under the names that were given.
pub proof fn participants_are_known_or_new(
    conversation_id: i64,
    external_id: &str,
    display_name: &str,
    p: Participant,
    known: Result<Resolution<Participant>, RuntimeError>,
    fresh: Result<Resolution<Participant>, RuntimeError>,
)
    requires
        call_ensures(
            resolve_or_create_participant,
            (
                conversation_id,
                external_id,
                display_name,
                Ok::<Option<Participant>, RepositoryError>(Some(p)),
            ),
            known,
        ),
        call_ensures(
            resolve_or_create_participant,
            (
                conversation_id,
                external_id,
                display_name,
                Ok::<Option<Participant>, RepositoryError>(None),
            ),
            fresh,
        ),
    ensures
        known == Ok::<Resolution<Participant>, RuntimeError>(Resolution::Known(p.id)),
        fresh matches Ok(Resolution::Create(n)) && n.role == ParticipantRole::User && n.id == 0
            && n.conversation_id == conversation_id && n.external_id@ == external_id@
            && n.display_name@ == display_name@,
{
}

/// In the end stands the number that was known, and for something new the one that
/// storing it gave.
pub proof fn resolved_numbers<T>(
    id: i64,
    made: T,
    stored: Result<i64, RepositoryError>,
    known: Result<i64, RuntimeError>,
    fresh: Result<i64, RuntimeError>,
)
    requires
        call_ensures(resolved_id::<T>, (&Resolution::<T>::Known(id), stored), known),
        call_ensures(resolved_id::<T>, (&Resolution::<T>::Create(made), stored), fresh),
    ensures
        known == Ok::<i64, RuntimeError>(id),
        stored matches Ok(n) ==> fresh == Ok::<i64, RuntimeError>(n),
        stored matches Err(e) ==> fresh == Err::<i64, RuntimeError>(RuntimeError::Repository(e)),
{
}

} // verus!
