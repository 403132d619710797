//! Characters, their states and their bindings to conversations.

use vstd::prelude::*;

use crate::error::DomainError;
use crate::json::Json;
use crate::scalar::{Scalar, FIFTY, HUNDRED, SEVENTY_TWO, TEN, ZERO};
use crate::text::{owned, trim, trimmed};
use crate::time::Timestamp;

verus! {

/// One entry of a character's lorebook.
#[derive(Debug)]
pub struct LorebookEntry {
    pub keywords: Vec<String>,
    pub content: String,
    pub enabled: bool,
    pub priority: i32,
}

/// Who a character is.
#[derive(Debug)]
pub struct CharacterDefinition {
    pub name: String,
    pub description: Option<String>,
    pub personality: Option<String>,
    pub scenario: Option<String>,
    pub style: Option<String>,
    pub background: Option<String>,
    pub greetings: Vec<String>,
    pub example_messages: Vec<String>,
    pub system_prompt: Option<String>,
    pub post_history_instructions: Option<String>,
    pub lorebook: Vec<LorebookEntry>,
    pub metadata: Json,
}

impl CharacterDefinition {
    /// The definition can be stored: its name is not blank.
    pub open spec fn valid(self) -> bool {
        trimmed(self.name@).len() > 0
    }

    /// Checks that the name is not blank.
    pub fn validate(&self) -> (r: Result<(), DomainError>)
        ensures
            r is Ok <==> self.valid(),
            r matches Err(e) ==> (e matches DomainError::InvalidDefinition(s) && s@
                == "角色名称不能为空"@),
    {
        let name = trim(self.name.as_str());
        if name.as_str().is_empty() {
            Err(DomainError::InvalidDefinition(owned("角色名称不能为空")))
        } else {
            Ok(())
        }
    }
}

/// The level bounded to `[0, 100]`.
pub open spec fn percent(x: Scalar) -> Scalar {
    x.bounded(Scalar { bits: ZERO }, Scalar { bits: HUNDRED })
}

/// Bounds a level to `[0, 100]`.
pub fn clamp_percent(x: Scalar) -> (r: Scalar)
    ensures
        r == percent(x),
{
    x.clamp(Scalar { bits: ZERO }, Scalar { bits: HUNDRED })
}

/// The state of a character as a whole.
#[derive(Debug)]
pub struct CharacterState {
    /// Energy, 0 to 100.
    pub energy: Scalar,
    /// Attention, 0 to 100.
    pub attention: Scalar,
    /// Stress, 0 to 100.
    pub stress: Scalar,
    /// What the character is doing.
    pub current_activity: Option<String>,
    /// The mood it shows to others.
    pub social_mood: Option<String>,
    /// When it last acted on its own.
    pub last_proactive_at: Option<Timestamp>,
    /// When this state was last changed.
    pub last_updated: Timestamp,
}

/// What a character state says.
#[verifier::ext_equal]
pub struct CharacterStateView {
    pub energy: Scalar,
    pub attention: Scalar,
    pub stress: Scalar,
    pub current_activity: Option<Seq<char>>,
    pub social_mood: Option<Seq<char>>,
    pub last_proactive_at: Option<Timestamp>,
    pub last_updated: Timestamp,
}

/// The text of an optional string.
pub open spec fn text_of(s: Option<String>) -> Option<Seq<char>> {
    match s {
        Some(t) => Some(t@),
        None => None,
    }
}

/// A copy of an optional string.
pub fn copy_text(s: &Option<String>) -> (r: Option<String>)
    ensures
        text_of(r) == text_of(*s),
{
    match s {
        Some(t) => Some(t.clone()),
        None => None,
    }
}

impl CharacterStateView {
    /// The state of a character of which nothing was stored.
    pub open spec fn fresh(now: Timestamp) -> CharacterStateView {
        CharacterStateView {
            energy: Scalar { bits: SEVENTY_TWO },
            attention: Scalar { bits: FIFTY },
            stress: Scalar { bits: TEN },
            current_activity: None,
            social_mood: Some("calm"@),
            last_proactive_at: None,
            last_updated: now,
        }
    }

    /// The state with its levels bounded to `[0, 100]`.
    pub open spec fn bounded(self) -> CharacterStateView {
        CharacterStateView {
            energy: percent(self.energy),
            attention: percent(self.attention),
            stress: percent(self.stress),
            ..self
        }
    }
}

impl View for CharacterState {
    type V = CharacterStateView;

    open spec fn view(&self) -> CharacterStateView {
        CharacterStateView {
            energy: self.energy,
            attention: self.attention,
            stress: self.stress,
            current_activity: text_of(self.current_activity),
            social_mood: text_of(self.social_mood),
            last_proactive_at: self.last_proactive_at,
            last_updated: self.last_updated,
        }
    }
}

impl CharacterState {
    /// The state of a character of which nothing was stored.
    pub fn default_at(now: Timestamp) -> (r: CharacterState)
        ensures
            r@ == CharacterStateView::fresh(now),
    {
        CharacterState {
            energy: Scalar { bits: SEVENTY_TWO },
            attention: Scalar { bits: FIFTY },
            stress: Scalar { bits: TEN },
            current_activity: None,
            social_mood: Some(owned("calm")),
            last_proactive_at: None,
            last_updated: now,
        }
    }

    /// Bounds the levels to `[0, 100]`.
    pub fn clamped(self) -> (r: CharacterState)
        ensures
            r@ == self@.bounded(),
    {
        CharacterState {
            energy: clamp_percent(self.energy),
            attention: clamp_percent(self.attention),
            stress: clamp_percent(self.stress),
            current_activity: self.current_activity,
            social_mood: self.social_mood,
            last_proactive_at: self.last_proactive_at,
            last_updated: self.last_updated,
        }
    }

    /// A state that says the same.
    pub fn duplicate(&self) -> (r: CharacterState)
        ensures
            r@ == self@,
    {
        CharacterState {
            energy: self.energy,
            attention: self.attention,
            stress: self.stress,
            current_activity: copy_text(&self.current_activity),
            social_mood: copy_text(&self.social_mood),
            last_proactive_at: self.last_proactive_at,
            last_updated: self.last_updated,
        }
    }
}

/// The state of a character in one conversation.
#[derive(Debug, Clone, Copy, PartialEq, Eq, Structural)]
pub struct ConversationState {
    /// Energy, 0 to 100.
    pub energy: Scalar,
    /// Stress, 0 to 100.
    pub stress: Scalar,
    /// When this state was last changed.
    pub last_updated: Timestamp,
}

impl ConversationState {
    /// The state in a conversation of which nothing was stored.
    pub open spec fn fresh(now: Timestamp) -> ConversationState {
        ConversationState {
            energy: Scalar { bits: FIFTY },
            stress: Scalar { bits: TEN },
            last_updated: now,
        }
    }

    /// The state with its levels bounded to `[0, 100]`.
    pub open spec fn bounded(self) -> ConversationState {
        ConversationState {
            energy: percent(self.energy),
            stress: percent(self.stress),
            last_updated: self.last_updated,
        }
    }

    /// The state in a conversation of which nothing was stored.
    pub fn default_at(now: Timestamp) -> (r: ConversationState)
        ensures
            r == ConversationState::fresh(now),
    {
        ConversationState {
            energy: Scalar { bits: FIFTY },
            stress: Scalar { bits: TEN },
            last_updated: now,
        }
    }

    /// Bounds the levels to `[0, 100]`.
    pub fn clamped(self) -> (r: ConversationState)
        ensures
            r == self.bounded(),
    {
        ConversationState {
            energy: clamp_percent(self.energy),
            stress: clamp_percent(self.stress),
            last_updated: self.last_updated,
        }
    }
}

/// What a character did of its own accord in one conversation.
#[derive(Debug, Clone, Copy, PartialEq, Eq, Structural)]
pub struct BehaviorState {
    /// When it last acted on its own there.
    pub last_proactive_at: Option<Timestamp>,
    /// When this state was last changed.
    pub last_updated: Timestamp,
}

impl BehaviorState {
    /// The state in a conversation of which nothing was stored.
    pub fn default_at(now: Timestamp) -> (r: BehaviorState)
        ensures
            r.last_proactive_at is None,
            r.last_updated == now,
    {
        BehaviorState { last_proactive_at: None, last_updated: now }
    }
}

/// How readily a character answers in a conversation.
#[derive(Debug, Clone, Copy, PartialEq, Eq, Structural)]
pub enum ReplyMode {
    /// Only when mentioned.
    MentionOnly,
    /// Now and then.
    Occasionally,
    /// As in a natural conversation.
    Natural,
}

impl Default for ReplyMode {
    fn default() -> (r: ReplyMode)
        ensures
            r == ReplyMode::MentionOnly,
    {
        ReplyMode::MentionOnly
    }
}

/// A character's place in a conversation.
#[derive(Debug)]
pub struct CharacterBinding {
    pub id: i64,
    pub character_id: i64,
    pub conversation_id: i64,
    pub reply_mode: ReplyMode,
    pub proactive_enabled: bool,
    pub mute_schedule: Option<String>,
    pub behavior_overrides: Json,
    pub context_policy: Json,
    pub switched_at: Option<Timestamp>,
    pub cross_reply_enabled: bool,
    pub created_at: Timestamp,
}

/// A character.
#[derive(Debug)]
pub struct Character {
    pub id: i64,
    pub definition: CharacterDefinition,
    pub state: CharacterState,
    pub created_at: Timestamp,
    pub updated_at: Timestamp,
}

/// A level is bounded to 0 and 100, and one that lies between them is kept.
pub proof fn levels_are_percentages(x: Scalar)
    requires
        !x.nan(),
    ensures
        x.below(Scalar { bits: 0 }) ==> percent(x) == (Scalar { bits: 0 }),
        (Scalar { bits: 0x4059_0000_0000_0000 }).below(x) ==> percent(x) == (Scalar {
            bits: 0x4059_0000_0000_0000,
        }),
        !x.below(Scalar { bits: 0 }) && !(Scalar { bits: 0x4059_0000_0000_0000 }).below(x)
            ==> percent(x) == x,
{
}

/// A fresh character has an energy of 72, an attention of 50 and a stress of 10, is
/// calm and did nothing yet; in a conversation its energy is 50 and its stress 10.
pub proof fn fresh_states(
    now: Timestamp,
    own: CharacterState,
    there: ConversationState,
    acts: BehaviorState,
)
    requires
        call_ensures(CharacterState::default_at, (now,), own),
        call_ensures(ConversationState::default_at, (now,), there),
        call_ensures(BehaviorState::default_at, (now,), acts),
    ensures
        own@.energy.bits == 0x4052_0000_0000_0000,
        own@.attention.bits == 0x4049_0000_0000_0000,
        own@.stress.bits == 0x4024_0000_0000_0000,
        own@.social_mood == Some("calm"@),
        own@.current_activity is None && own@.last_proactive_at is None && own@.last_updated == now,
        there.energy.bits == 0x4049_0000_0000_0000,
        there.stress.bits == 0x4024_0000_0000_0000,
        there.last_updated == now,
        acts.last_proactive_at is None && acts.last_updated == now,
{
}

/// Bounding a state bounds each of its levels and leaves the rest.
pub proof fn bounding_keeps_the_rest(
    own: CharacterState,
    own_after: CharacterState,
    there: ConversationState,
    there_after: ConversationState,
)
    requires
        call_ensures(CharacterState::clamped, (own,), own_after),
        call_ensures(ConversationState::clamped, (there,), there_after),
    ensures
        own_after@.energy == percent(own.energy),
        own_after@.attention == percent(own.attention),
        own_after@.stress == percent(own.stress),
        own_after@.current_activity == text_of(own.current_activity),
        own_after@.social_mood == text_of(own.social_mood),
        own_after@.last_proactive_at == own.last_proactive_at,
        own_after@.last_updated == own.last_updated,
        there_after.energy == percent(there.energy),
        there_after.stress == percent(there.stress),
        there_after.last_updated == there.last_updated,
{
}

/// A character's name holds something else than white space.
pub proof fn names_are_not_blank(def: CharacterDefinition, r: Result<(), DomainError>)
    requires
        call_ensures(CharacterDefinition::validate, (&def,), r),
    ensures
        r is Ok <==> exists|i: int|
            0 <= i < def.name@.len() && !crate::text::is_space(#[trigger] def.name@[i]),
{
    let s = def.name@;
    crate::text::trimming_cuts_white_space_alone(s);
    let (a, b) = choose|a: int, b: int|
        0 <= a <= b <= s.len() && trimmed(s) == #[trigger] s.subrange(a, b) && (forall|k: int|
            0 <= k < a || b <= k < s.len() ==> crate::text::is_space(#[trigger] s[k]));
    if trimmed(s).len() > 0 {
        assert(s[a] == trimmed(s)[0]);
    }
}

} // verus!
