//! Putting characters into conversations.

use vstd::prelude::*;

use crate::domain::character::{CharacterBinding, ReplyMode};
use crate::error::{DomainError, RepositoryError, RuntimeError};
use crate::json::Json;
use crate::text::{concat, i64_text, integer_text};
use crate::time::Timestamp;

verus! {

/// How a character is to take part in a conversation.
#[derive(Debug)]
pub struct BindingTerms {
    pub reply_mode: ReplyMode,
    pub proactive_enabled: bool,
    pub mute_schedule: Option<String>,
    pub behavior_overrides: Json,
    pub context_policy: Json,
}

/// What the storage answers when a binding is made, or its failures.
#[derive(Debug)]
pub struct BindReads {
    /// Whether the character exists.
    pub character: Result<bool, RepositoryError>,
    /// Whether the conversation exists.
    pub conversation: Result<bool, RepositoryError>,
    /// The bindings of the character.
    pub existing: Result<Vec<CharacterBinding>, RepositoryError>,
    /// The bindings of the conversation.
    pub in_conversation: Result<Vec<CharacterBinding>, RepositoryError>,
}

/// The first index at or after `from` of a binding to the conversation; the length
/// where there is none.
pub open spec fn bound_index(
    bindings: Seq<CharacterBinding>,
    conversation_id: i64,
    from: int,
) -> int
    decreases bindings.len() - from,
{
    if from < 0 || from >= bindings.len() {
        bindings.len() as int
    } else if bindings[from].conversation_id == conversation_id {
        from
    } else {
        bound_index(bindings, conversation_id, from + 1)
    }
}

/// One of the bindings is to the conversation.
pub open spec fn bound_to(bindings: Seq<CharacterBinding>, conversation_id: i64) -> bool {
    bound_index(bindings, conversation_id, 0) < bindings.len()
}

fn position(bindings: &Vec<CharacterBinding>, conversation_id: i64) -> (r: usize)
    ensures
        r == bound_index(bindings@, conversation_id, 0),
        r <= bindings@.len(),
{
    let mut i: usize = 0;
    while i < bindings.len() && bindings[i].conversation_id != conversation_id
        invariant
            i <= bindings@.len(),
            bound_index(bindings@, conversation_id, i as int) == bound_index(
                bindings@,
                conversation_id,
                0,
            ),
        decreases bindings@.len() - i,
    {
        i += 1;
    }
    i
}

/// Why a character may not be put into a conversation: one of them does not exist,
/// the character is there already, another one is there, or the storage failed.
pub open spec fn binding_refused(
    character_id: i64,
    conversation_id: i64,
    reads: BindReads,
    e: RuntimeError,
) -> bool {
    match (reads.character, reads.conversation, reads.existing, reads.in_conversation) {
        (Err(why), _, _, _) => e == RuntimeError::Repository(why),
        (Ok(false), _, _, _) => e == RuntimeError::Domain(
            DomainError::CharacterNotFound(character_id),
        ),
        (_, Err(why), _, _) => e == RuntimeError::Repository(why),
        (_, Ok(false), _, _) => e == RuntimeError::Domain(
            DomainError::ConversationNotFound(conversation_id),
        ),
        (_, _, Err(why), _) => e == RuntimeError::Repository(why),
        (Ok(true), Ok(true), Ok(own), there) => if bound_to(own@, conversation_id) {
            e matches RuntimeError::Domain(DomainError::InvalidState(s)) && s@ == "角色 "@
                + integer_text(character_id as int) + " 已绑定到会话 "@ + integer_text(
                conversation_id as int,
            )
        } else {
            match there {
                Err(why) => e == RuntimeError::Repository(why),
                Ok(list) => list@.len() > 0 && (e matches RuntimeError::Domain(
                    DomainError::InvalidState(s),
                ) && s@ == "会话 "@ + integer_text(conversation_id as int) + " 已绑定角色 "@
                    + integer_text(list@[0].character_id as int)),
            }
        },
    }
}

/// A character may be put into a conversation: both exist, the character is not
/// there, and nobody else is.
pub open spec fn binding_free(conversation_id: i64, reads: BindReads) -> bool {
    &&& reads.character == Ok::<bool, RepositoryError>(true)
    &&& reads.conversation == Ok::<bool, RepositoryError>(true)
    &&& reads.existing matches Ok(own) && !bound_to(own@, conversation_id)
    &&& reads.in_conversation matches Ok(list) && list@.len() == 0
}

/// Checks that a character may be put into a conversation and makes the binding,
/// not stored yet: both must exist, and the conversation must be free. It holds one
/// character at most.
pub fn bind(
    character_id: i64,
    conversation_id: i64,
    terms: BindingTerms,
    reads: BindReads,
    now: Timestamp,
) -> (r: Result<CharacterBinding, RuntimeError>)
    ensures
        r is Ok <==> binding_free(conversation_id, reads),
        match r {
            Err(e) => binding_refused(character_id, conversation_id, reads, e),
            Ok(made) => made == (CharacterBinding {
                id: 0,
                character_id,
                conversation_id,
                reply_mode: terms.reply_mode,
                proactive_enabled: terms.proactive_enabled,
                mute_schedule: terms.mute_schedule,
                behavior_overrides: terms.behavior_overrides,
                context_policy: terms.context_policy,
                switched_at: None,
                cross_reply_enabled: false,
                created_at: now,
            }),
        },
{
    match reads.character {
        Err(e) => {
            return Err(RuntimeError::Repository(e));
        },
        Ok(exists) => {
            if !exists {
                return Err(RuntimeError::Domain(DomainError::CharacterNotFound(character_id)));
            }
        },
    }
    match reads.conversation {
        Err(e) => {
            return Err(RuntimeError::Repository(e));
        },
        Ok(exists) => {
            if !exists {
                return Err(RuntimeError::Domain(DomainError::ConversationNotFound(conversation_id)));
            }
        },
    }
    let existing = match reads.existing {
        Err(e) => {
            return Err(RuntimeError::Repository(e));
        },
        Ok(list) => list,
    };
    if position(&existing, conversation_id) < existing.len() {
        let head = concat("角色 ", i64_text(character_id).as_str());
        let middle = concat(head.as_str(), " 已绑定到会话 ");
        return Err(
            RuntimeError::Domain(
                DomainError::InvalidState(
                    concat(middle.as_str(), i64_text(conversation_id).as_str()),
                ),
            ),
        );
    }
    let there = match reads.in_conversation {
        Err(e) => {
            return Err(RuntimeError::Repository(e));
        },
        Ok(list) => list,
    };
    if there.len() > 0 {
        let head = concat("会话 ", i64_text(conversation_id).as_str());
        let middle = concat(head.as_str(), " 已绑定角色 ");
        return Err(
            RuntimeError::Domain(
                DomainError::InvalidState(
                    concat(middle.as_str(), i64_text(there[0].character_id).as_str()),
                ),
            ),
        );
    }
    Ok(
        CharacterBinding {
            id: 0,
            character_id,
            conversation_id,
            reply_mode: terms.reply_mode,
            proactive_enabled: terms.proactive_enabled,
            mute_schedule: terms.mute_schedule,
            behavior_overrides: terms.behavior_overrides,
            context_policy: terms.context_policy,
            switched_at: None,
            cross_reply_enabled: false,
            created_at: now,
        },
    )
}

/// The binding as the storage recorded it, with its number; the one that was made
/// where the storage does not show it. `recorded` are the bindings of the
/// character after it was stored.
pub fn saved_binding(
    made: CharacterBinding,
    recorded: Result<Vec<CharacterBinding>, RepositoryError>,
) -> (r: Result<CharacterBinding, RuntimeError>)
    ensures
        match recorded {
            Err(e) => r == Err::<CharacterBinding, RuntimeError>(RuntimeError::Repository(e)),
            Ok(list) => r == Ok::<CharacterBinding, RuntimeError>(
                if bound_to(list@, made.conversation_id) {
                    list@[bound_index(list@, made.conversation_id, 0)]
                } else {
                    made
                },
            ),
        },
{
    match recorded {
        Err(e) => Err(RuntimeError::Repository(e)),
        Ok(list) => {
            let mut list = list;
            let i: usize = position(&list, made.conversation_id);
            if i < list.len() {
                Ok(list.swap_remove(i))
            } else {
                Ok(made)
            }
        },
    }
}

/// Puts another character in the place of a binding. The settings of the
/// conversation stay with the binding.
pub fn switch_character(binding: CharacterBinding, character_id: i64, now: Timestamp) -> (r:
    CharacterBinding)
    ensures
        r == (CharacterBinding { character_id, switched_at: Some(now), ..binding }),
{
    CharacterBinding {
        id: binding.id,
        character_id,
        conversation_id: binding.conversation_id,
        reply_mode: binding.reply_mode,
        proactive_enabled: binding.proactive_enabled,
        mute_schedule: binding.mute_schedule,
        behavior_overrides: binding.behavior_overrides,
        context_policy: binding.context_policy,
        switched_at: Some(now),
        cross_reply_enabled: binding.cross_reply_enabled,
        created_at: binding.created_at,
    }
}

/// The storage answers from all bindings that there are: those of the character, and
/// those of the conversation.
pub open spec fn answers_from(
    all: Seq<CharacterBinding>,
    character_id: i64,
    conversation_id: i64,
    reads: BindReads,
) -> bool {
    &&& reads.existing matches Ok(own) && forall|i: int|
        0 <= i < all.len() && (#[trigger] all[i]).character_id == character_id ==> own@.contains(
            all[i],
        )
    &&& reads.in_conversation matches Ok(list) && forall|i: int|
        0 <= i < all.len() && (#[trigger] all[i]).conversation_id == conversation_id
            ==> list@.contains(all[i])
}

/// Every conversation holds one character at most.
pub open spec fn one_each(all: Seq<CharacterBinding>) -> bool {
    forall|i: int, j: int|
        0 <= i < j < all.len() ==> (#[trigger] all[i]).conversation_id != (
        #[trigger] all[j]).conversation_id
}

/// A conversation never holds two characters: a binding to one that holds any is
/// refused, and after a binding that is not refused is stored every conversation
/// holds one character at most, if it did before.
pub proof fn bindings_stay_unique(
    all: Seq<CharacterBinding>,
    made: CharacterBinding,
    conversation_id: i64,
    reads: BindReads,
)
    requires
        answers_from(all, made.character_id, conversation_id, reads),
        made.conversation_id == conversation_id,
        one_each(all),
    ensures
        binding_free(conversation_id, reads) ==> one_each(all.push(made)),
        (exists|i: int|
            0 <= i < all.len() && (#[trigger] all[i]).conversation_id == conversation_id)
            ==> !binding_free(conversation_id, reads),
{
    if reads.in_conversation->Ok_0@.len() == 0 {
        assert forall|i: int| 0 <= i < all.len() implies (#[trigger] all[i]).conversation_id
            != conversation_id by {
            if all[i].conversation_id == conversation_id {
                assert(reads.in_conversation->Ok_0@.contains(all[i]));
            }
        }
    }
}

/// A character is put into a conversation exactly where both exist, none of its
/// bindings is to that conversation, and the conversation holds nobody; on the terms
/// that were given, as new as the moment.
pub proof fn bindings_need_a_free_conversation(
    character_id: i64,
    conversation_id: i64,
    terms: BindingTerms,
    reads: BindReads,
    now: Timestamp,
    r: Result<CharacterBinding, RuntimeError>,
)
    requires
        call_ensures(bind, (character_id, conversation_id, terms, reads, now), r),
    ensures
        r is Ok <==> {
            &&& reads.character == Ok::<bool, RepositoryError>(true)
            &&& reads.conversation == Ok::<bool, RepositoryError>(true)
            &&& reads.existing is Ok && forall|i: int|
                0 <= i < reads.existing->Ok_0@.len() ==> (
                #[trigger] reads.existing->Ok_0@[i]).conversation_id != conversation_id
            &&& reads.in_conversation is Ok && reads.in_conversation->Ok_0@.len() == 0
        },
        r matches Ok(b) ==> {
            &&& b.character_id == character_id && b.conversation_id == conversation_id
            &&& b.reply_mode == terms.reply_mode
            &&& b.proactive_enabled == terms.proactive_enabled
            &&& b.mute_schedule == terms.mute_schedule
            &&& b.behavior_overrides == terms.behavior_overrides
            &&& b.context_policy == terms.context_policy
            &&& b.created_at == now && b.switched_at is None && !b.cross_reply_enabled
            &&& b.id == 0
        },
        reads.character == Ok::<bool, RepositoryError>(false) ==> r == Err::<
            CharacterBinding,
            RuntimeError,
        >(RuntimeError::Domain(DomainError::CharacterNotFound(character_id))),
        reads.character == Ok::<bool, RepositoryError>(true) && reads.conversation == Ok::<
            bool,
            RepositoryError,
        >(false) ==> r == Err::<CharacterBinding, RuntimeError>(
            RuntimeError::Domain(DomainError::ConversationNotFound(conversation_id)),
        ),
{
    if let Ok(own) = reads.existing {
        lemma_bound_index(own@, conversation_id, 0);
    }
}

proof fn lemma_bound_index(bindings: Seq<CharacterBinding>, conversation_id: i64, from: int)
    requires
        0 <= from <= bindings.len(),
    ensures
        from <= bound_index(bindings, conversation_id, from) <= bindings.len(),
        forall|j: int|
            from <= j < bound_index(bindings, conversation_id, from) ==> (
            #[trigger] bindings[j]).conversation_id != conversation_id,
        bound_index(bindings, conversation_id, from) < bindings.len() ==> bindings[bound_index(
            bindings,
            conversation_id,
            from,
        )].conversation_id == conversation_id,
    decreases bindings.len() - from,
{
    if from < bindings.len() && bindings[from].conversation_id != conversation_id {
        lemma_bound_index(bindings, conversation_id, from + 1);
    }
}

/// What is given back of a stored binding is the first record of its conversation,
/// and the binding itself where there is no such record.
pub proof fn the_record_of_the_conversation_is_given_back(
    made: CharacterBinding,
    recorded: Vec<CharacterBinding>,
    r: Result<CharacterBinding, RuntimeError>,
    i: int,
)
    requires
        call_ensures(
            saved_binding,
            (made, Ok::<Vec<CharacterBinding>, RepositoryError>(recorded)),
            r,
        ),
    ensures
        0 <= i < recorded@.len() && recorded@[i].conversation_id == made.conversation_id && (
        forall|j: int|
            0 <= j < i ==> (#[trigger] recorded@[j]).conversation_id != made.conversation_id)
            ==> r == Ok::<CharacterBinding, RuntimeError>(recorded@[i]),
        (forall|j: int|
            0 <= j < recorded@.len() ==> (#[trigger] recorded@[j]).conversation_id
                != made.conversation_id) ==> r == Ok::<CharacterBinding, RuntimeError>(made),
{
    lemma_bound_index(recorded@, made.conversation_id, 0);
    if 0 <= i < recorded@.len() && recorded@[i].conversation_id == made.conversation_id && (forall|
        j: int,
    |
        0 <= j < i ==> (#[trigger] recorded@[j]).conversation_id != made.conversation_id) {
        assert(bound_index(recorded@, made.conversation_id, 0) == i);
    }
}

/// A switch changes who takes part and when that began, and nothing of how.
pub proof fn switches_keep_the_settings(
    before: CharacterBinding,
    character_id: i64,
    now: Timestamp,
    after: CharacterBinding,
)
    requires
        call_ensures(switch_character, (before, character_id, now), after),
    ensures
        after.character_id == character_id,
        after.switched_at == Some(now),
        after.id == before.id,
        after.conversation_id == before.conversation_id,
        after.reply_mode == before.reply_mode,
        after.proactive_enabled == before.proactive_enabled,
        after.mute_schedule == before.mute_schedule,
        after.behavior_overrides == before.behavior_overrides,
        after.context_policy == before.context_policy,
        after.cross_reply_enabled == before.cross_reply_enabled,
        after.created_at == before.created_at,
{
}

} // verus!
