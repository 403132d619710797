//! What a character thinks of a participant.

use vstd::prelude::*;

use crate::scalar::{Scalar, FIFTH, ONE, TENTH, ZERO};
use crate::time::Timestamp;

verus! {

/// The relationship of a character to a participant.
#[derive(Debug, Clone, Copy, PartialEq, Eq, Structural)]
pub struct Relationship {
    pub character_id: i64,
    pub participant_id: i64,
    /// Familiarity, 0 to 1.
    pub familiarity: Scalar,
    /// Affection, 0 to 1.
    pub affection: Scalar,
    /// Trust, 0 to 1.
    pub trust: Scalar,
    /// Respect, 0 to 1.
    pub respect: Scalar,
    /// Annoyance, 0 to 1.
    pub annoyance: Scalar,
    /// Intimacy, 0 to 1.
    pub intimacy: Scalar,
    /// How often they interacted.
    pub interaction_count: i64,
    /// When they last interacted.
    pub last_interaction: Timestamp,
    pub created_at: Timestamp,
    pub updated_at: Timestamp,
}

impl Relationship {
    /// The relationship between strangers.
    pub open spec fn strangers(character_id: i64, participant_id: i64, now: Timestamp) -> Relationship {
        Relationship {
            character_id,
            participant_id,
            familiarity: Scalar { bits: ZERO },
            affection: Scalar { bits: FIFTH },
            trust: Scalar { bits: TENTH },
            respect: Scalar { bits: FIFTH },
            annoyance: Scalar { bits: ZERO },
            intimacy: Scalar { bits: ZERO },
            interaction_count: 0,
            last_interaction: now,
            created_at: now,
            updated_at: now,
        }
    }

    /// The relationship after one more interaction, with the familiarity that
    /// goes with the new count.
    pub open spec fn after_interaction(self, familiarity: Scalar, now: Timestamp) -> Relationship {
        Relationship {
            interaction_count: (self.interaction_count + 1) as i64,
            last_interaction: now,
            updated_at: now,
            familiarity: familiarity.lesser(Scalar { bits: ONE }),
            ..self
        }
    }

    /// The relationship between strangers.
    pub fn new(character_id: i64, participant_id: i64, now: Timestamp) -> (r: Relationship)
        ensures
            r == Relationship::strangers(character_id, participant_id, now),
    {
        Relationship {
            character_id,
            participant_id,
            familiarity: Scalar { bits: ZERO },
            affection: Scalar { bits: FIFTH },
            trust: Scalar { bits: TENTH },
            respect: Scalar { bits: FIFTH },
            annoyance: Scalar { bits: ZERO },
            intimacy: Scalar { bits: ZERO },
            interaction_count: 0,
            last_interaction: now,
            created_at: now,
            updated_at: now,
        }
    }

    /// Counts one more interaction. `familiarity` is what the new count amounts
    /// to (a tenth of the logarithm of one more than it), not yet capped at 1.
    pub fn record_interaction(&mut self, familiarity: Scalar, now: Timestamp)
        requires
            old(self).interaction_count < i64::MAX,
        ensures
            *final(self) == old(self).after_interaction(familiarity, now),
    {
        self.interaction_count = self.interaction_count + 1;
        self.last_interaction = now;
        self.updated_at = now;
        self.familiarity = familiarity.min(Scalar { bits: ONE });
    }
}

/// Strangers are not familiar, 0.2 of affection and respect and 0.1 of trust lie
/// between them, neither annoyance nor intimacy, and they never interacted.
pub proof fn how_strangers_begin(
    character_id: i64,
    participant_id: i64,
    now: Timestamp,
    r: Relationship,
)
    requires
        call_ensures(Relationship::new, (character_id, participant_id, now), r),
    ensures
        r.character_id == character_id && r.participant_id == participant_id,
        r.familiarity.bits == 0,
        r.affection.bits == 0x3FC9_9999_9999_999A,
        r.trust.bits == 0x3FB9_9999_9999_999A,
        r.respect.bits == 0x3FC9_9999_9999_999A,
        r.annoyance.bits == 0,
        r.intimacy.bits == 0,
        r.interaction_count == 0,
        r.last_interaction == now && r.created_at == now && r.updated_at == now,
{
}

/// An interaction counts one more, happens now, and makes the two as familiar as was
/// worked out, but not more than wholly; the other scores stay.
pub proof fn interactions_are_counted(r: Relationship, familiarity: Scalar, now: Timestamp)
    requires
        r.interaction_count < 0x7FFF_FFFF_FFFF_FFFF,
        !familiarity.nan(),
    ensures
        ({
            let after = r.after_interaction(familiarity, now);
            &&& after.interaction_count == r.interaction_count + 1
            &&& after.last_interaction == now && after.updated_at == now
            &&& after.familiarity == if (Scalar { bits: 0x3FF0_0000_0000_0000 }).below(
                familiarity,
            ) {
                Scalar { bits: 0x3FF0_0000_0000_0000 }
            } else {
                familiarity
            }
            &&& after.affection == r.affection && after.trust == r.trust && after.respect
                == r.respect && after.annoyance == r.annoyance && after.intimacy == r.intimacy
            &&& after.character_id == r.character_id && after.participant_id == r.participant_id
            &&& after.created_at == r.created_at
        }),
{
}

} // verus!
