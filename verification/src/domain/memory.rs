//! Long-term memories.

use vstd::prelude::*;

use crate::json::{Json, JsonView};
use crate::scalar::{Scalar, ONE, ZERO};
use crate::time::Timestamp;

verus! {

/// What a memory is about.
#[derive(Debug, Clone, Copy, PartialEq, Eq, Structural)]
pub enum MemoryType {
    /// A particular event or conversation.
    Episodic,
    /// A fact.
    Semantic,
    /// A relationship.
    Relationship,
    /// A long-term setting of the system.
    System,
}

/// A memory.
#[derive(Debug)]
pub struct Memory {
    /// Zero until the storage assigns one.
    pub id: i64,
    pub character_id: i64,
    pub conversation_id: Option<i64>,
    pub memory_type: MemoryType,
    pub content: String,
    /// Importance, 0 to 1.
    pub importance: Scalar,
    pub created_at: Timestamp,
    pub last_accessed: Timestamp,
    pub metadata: Json,
}

/// What a memory says.
#[verifier::ext_equal]
pub struct MemoryView {
    pub id: i64,
    pub character_id: i64,
    pub conversation_id: Option<i64>,
    pub memory_type: MemoryType,
    pub content: Seq<char>,
    pub importance: Scalar,
    pub created_at: Timestamp,
    pub last_accessed: Timestamp,
    pub metadata: JsonView,
}

impl View for Memory {
    type V = MemoryView;

    open spec fn view(&self) -> MemoryView {
        MemoryView {
            id: self.id,
            character_id: self.character_id,
            conversation_id: self.conversation_id,
            memory_type: self.memory_type,
            content: self.content@,
            importance: self.importance,
            created_at: self.created_at,
            last_accessed: self.last_accessed,
            metadata: self.metadata.model(),
        }
    }
}

/// A share bounded to `[0, 1]`.
pub open spec fn share(x: Scalar) -> Scalar {
    x.bounded(Scalar { bits: ZERO }, Scalar { bits: ONE })
}

/// Bounds a share to `[0, 1]`.
pub fn clamp_share(x: Scalar) -> (r: Scalar)
    ensures
        r == share(x),
{
    x.clamp(Scalar { bits: ZERO }, Scalar { bits: ONE })
}

impl Memory {
    /// A memory that is not stored yet.
    pub fn new(
        character_id: i64,
        conversation_id: Option<i64>,
        memory_type: MemoryType,
        content: String,
        importance: Scalar,
        now: Timestamp,
    ) -> (r: Memory)
        ensures
            r.id == 0,
            r.character_id == character_id,
            r.conversation_id == conversation_id,
            r.memory_type == memory_type,
            r.content == content,
            r.importance == share(importance),
            r.created_at == now,
            r.last_accessed == now,
            r.metadata.model() == JsonView::Null,
    {
        Memory {
            id: 0,
            character_id,
            conversation_id,
            memory_type,
            content,
            importance: clamp_share(importance),
            created_at: now,
            last_accessed: now,
            metadata: Json::Null,
        }
    }

    /// Notes that the memory was used.
    pub fn touch(&mut self, now: Timestamp)
        ensures
            *final(self) == (Memory { last_accessed: now, ..*old(self) }),
    {
        self.last_accessed = now;
    }
}

/// A share is bounded to 0 and 1, and one that lies between them is kept.
pub proof fn shares_lie_between_nothing_and_all(x: Scalar)
    requires
        !x.nan(),
    ensures
        x.below(Scalar { bits: 0 }) ==> share(x) == (Scalar { bits: 0 }),
        (Scalar { bits: 0x3FF0_0000_0000_0000 }).below(x) ==> share(x) == (Scalar {
            bits: 0x3FF0_0000_0000_0000,
        }),
        !x.below(Scalar { bits: 0 }) && !(Scalar { bits: 0x3FF0_0000_0000_0000 }).below(x)
            ==> share(x) == x,
{
}

/// A new memory says what it was given, has no number yet, and was made and used at
/// the moment.
pub proof fn new_memories(
    character_id: i64,
    conversation_id: Option<i64>,
    memory_type: MemoryType,
    content: String,
    importance: Scalar,
    now: Timestamp,
    m: Memory,
)
    requires
        call_ensures(
            Memory::new,
            (character_id, conversation_id, memory_type, content, importance, now),
            m,
        ),
    ensures
        m.id == 0,
        m.character_id == character_id && m.conversation_id == conversation_id,
        m.memory_type == memory_type && m.content@ == content@,
        !importance.below(Scalar { bits: 0 }) && !(Scalar { bits: 0x3FF0_0000_0000_0000 }).below(
            importance,
        ) ==> m.importance == importance,
        m.created_at == now && m.last_accessed == now,
        m.metadata.model() is Null,
{
}

} // verus!
