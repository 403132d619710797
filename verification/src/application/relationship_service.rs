//! How interactions change a relationship.

use vstd::prelude::*;

use crate::domain::event::RelationshipChangedEvent;
use crate::domain::relationship::Relationship;
use crate::error::{RepositoryError, RuntimeError};
use crate::scalar::{Scalar, HALF_HUNDREDTH, HUNDREDTH, ONE, ZERO};
use crate::time::Timestamp;

verus! {

/// From this number of interactions on, another one annoys.
pub const MANY_INTERACTIONS: i64 = 20;

/// The relationship to a participant, and whether it must be stored because it was
/// not yet.
pub fn load_or_new(
    character_id: i64,
    participant_id: i64,
    found: Result<Option<Relationship>, RepositoryError>,
    now: Timestamp,
) -> (r: Result<(Relationship, bool), RuntimeError>)
    ensures
        r == (match found {
            Err(e) => Err::<(Relationship, bool), RuntimeError>(RuntimeError::Repository(e)),
            Ok(Some(rel)) => Ok((rel, false)),
            Ok(None) => Ok((Relationship::strangers(character_id, participant_id, now), true)),
        }),
{
    match found {
        Err(e) => Err(RuntimeError::Repository(e)),
        Ok(Some(rel)) => Ok((rel, false)),
        Ok(None) => Ok((Relationship::new(character_id, participant_id, now), true)),
    }
}

/// The relationship after one more interaction. `familiarity` gives what a number
/// of interactions amounts to, `sum` adds two numbers.
pub open spec fn interacted<G: Fn(i64) -> Scalar, F: Fn(Scalar, Scalar) -> Scalar>(
    before: Relationship,
    after: Relationship,
    familiarity: G,
    sum: F,
    now: Timestamp,
) -> bool {
    &&& exists|f: Scalar|
        #[trigger] call_ensures(familiarity, ((before.interaction_count + 1) as i64,), f)
            && after.familiarity == f.lesser(Scalar { bits: ONE }).greater(before.familiarity)
    &&& exists|a: Scalar|
        #[trigger] call_ensures(sum, (before.affection, Scalar { bits: HUNDREDTH }), a)
            && after.affection == a.lesser(Scalar { bits: ONE })
    &&& if before.interaction_count + 1 > MANY_INTERACTIONS {
        exists|n: Scalar|
            #[trigger] call_ensures(sum, (before.annoyance, Scalar { bits: HALF_HUNDREDTH }), n)
                && after.annoyance == n.lesser(Scalar { bits: ONE })
    } else {
        after.annoyance == before.annoyance
    }
    &&& after == Relationship {
        familiarity: after.familiarity,
        affection: after.affection,
        annoyance: after.annoyance,
        interaction_count: (before.interaction_count + 1) as i64,
        last_interaction: now,
        updated_at: now,
        ..before
    }
}

/// Records an interaction: familiarity rises to what the number of interactions
/// amounts to and never falls, affection grows by a hundredth, and after many
/// interactions annoyance by half a hundredth; none of this goes beyond 1. The
/// change is handed out to be made known.
pub fn record_interaction<G: Fn(i64) -> Scalar, F: Fn(Scalar, Scalar) -> Scalar>(
    relationship: Relationship,
    familiarity: &G,
    sum: &F,
    now: Timestamp,
) -> (r: (Relationship, RelationshipChangedEvent))
    requires
        relationship.interaction_count < i64::MAX,
        forall|n: i64| call_requires(*familiarity, (n,)),
        forall|x: Scalar, y: Scalar| call_requires(*sum, (x, y)),
    ensures
        interacted(relationship, r.0, *familiarity, *sum, now),
        r.1 == (RelationshipChangedEvent {
            character_id: relationship.character_id,
            participant_id: relationship.participant_id,
            timestamp: now,
        }),
{
    let mut rel = relationship;
    let f = familiarity(rel.interaction_count + 1);
    rel.record_interaction(f, now);
    rel.familiarity = rel.familiarity.max(relationship.familiarity);
    let a = sum(rel.affection, Scalar { bits: HUNDREDTH });
    rel.affection = a.min(Scalar { bits: ONE });
    if rel.interaction_count > MANY_INTERACTIONS {
        let n = sum(rel.annoyance, Scalar { bits: HALF_HUNDREDTH });
        rel.annoyance = n.min(Scalar { bits: ONE });
        assert(call_ensures(*sum, (relationship.annoyance, Scalar { bits: HALF_HUNDREDTH }), n));
    }
    proof {
        assert(call_ensures(*familiarity, ((relationship.interaction_count + 1) as i64,), f));
        assert(call_ensures(*sum, (relationship.affection, Scalar { bits: HUNDREDTH }), a));
    }
    let event = RelationshipChangedEvent {
        character_id: rel.character_id,
        participant_id: rel.participant_id,
        timestamp: now,
    };
    (rel, event)
}

/// A score that lies from 0 to 1.
pub open spec fn share(x: Scalar) -> bool {
    !x.nan() && !x.below(Scalar { bits: ZERO }) && !(Scalar { bits: ONE }).below(x)
}

/// The scores of a relationship lie from 0 to 1.
pub open spec fn scored(r: Relationship) -> bool {
    &&& share(r.familiarity)
    &&& share(r.affection)
    &&& share(r.trust)
    &&& share(r.respect)
    &&& share(r.annoyance)
    &&& share(r.intimacy)
}

/// Adding what is not below zero makes nothing smaller.
pub open spec fn adds<F: Fn(Scalar, Scalar) -> Scalar>(sum: F) -> bool {
    forall|x: Scalar, y: Scalar, s: Scalar|
        #[trigger] call_ensures(sum, (x, y), s) && !y.below(Scalar { bits: ZERO }) ==> !s.below(x)
}

/// An interaction leaves who is related to whom, trust, respect and intimacy as
/// they are, and counts one. Neither familiarity nor affection ever falls, and
/// every score stays from 0 to 1. It annoys only after many.
pub proof fn interactions_change_little<G: Fn(i64) -> Scalar, F: Fn(Scalar, Scalar) -> Scalar>(
    before: Relationship,
    after: Relationship,
    familiarity: G,
    sum: F,
    now: Timestamp,
)
    requires
        before.interaction_count < i64::MAX,
        scored(before),
        adds(sum),
        interacted(before, after, familiarity, sum, now),
    ensures
        after.character_id == before.character_id,
        after.participant_id == before.participant_id,
        after.trust == before.trust,
        after.respect == before.respect,
        after.intimacy == before.intimacy,
        after.created_at == before.created_at,
        after.interaction_count == before.interaction_count + 1,
        !after.familiarity.below(before.familiarity),
        !after.affection.below(before.affection),
        scored(after),
        before.interaction_count < MANY_INTERACTIONS ==> after.annoyance == before.annoyance,
{
}

/// An interaction adds 0.01 to the affection and, from the twenty-first on, 0.005 to
/// the annoyance, neither beyond 1, makes the two as familiar as so many
/// interactions come to where they are not more familiar yet, and is made known.
pub proof fn what_an_interaction_adds<G: Fn(i64) -> Scalar, F: Fn(Scalar, Scalar) -> Scalar>(
    before: Relationship,
    familiarity: G,
    sum: F,
    now: Timestamp,
    r: (Relationship, RelationshipChangedEvent),
)
    requires
        before.interaction_count < 0x7FFF_FFFF_FFFF_FFFF,
        call_ensures(record_interaction::<G, F>, (before, &familiarity, &sum, now), r),
    ensures
        ({
            let one = Scalar { bits: 0x3FF0_0000_0000_0000 };
            let after = r.0;
            &&& exists|a: Scalar|
                #[trigger] call_ensures(
                    sum,
                    (before.affection, Scalar { bits: 0x3F84_7AE1_47AE_147B }),
                    a,
                ) && after.affection == a.lesser(one)
            &&& before.interaction_count >= 20 ==> exists|n: Scalar|
                #[trigger] call_ensures(
                    sum,
                    (before.annoyance, Scalar { bits: 0x3F74_7AE1_47AE_147B }),
                    n,
                ) && after.annoyance == n.lesser(one)
            &&& before.interaction_count < 20 ==> after.annoyance == before.annoyance
            &&& exists|f: Scalar|
                #[trigger] call_ensures(familiarity, ((before.interaction_count + 1) as i64,), f)
                    && after.familiarity == f.lesser(one).greater(before.familiarity)
            &&& after.interaction_count == before.interaction_count + 1
            &&& after.last_interaction == now && after.updated_at == now
            &&& r.1.character_id == before.character_id && r.1.participant_id
                == before.participant_id && r.1.timestamp == now
        }),
{
}

/// A relationship that was found is taken as it is; one that was not is that of
/// strangers, and must be stored.
pub proof fn relationships_are_found_or_begun(
    character_id: i64,
    participant_id: i64,
    rel: Relationship,
    now: Timestamp,
    found: Result<(Relationship, bool), RuntimeError>,
    missed: Result<(Relationship, bool), RuntimeError>,
    fresh: Relationship,
)
    requires
        call_ensures(
            load_or_new,
            (
                character_id,
                participant_id,
                Ok::<Option<Relationship>, RepositoryError>(Some(rel)),
                now,
            ),
            found,
        ),
        call_ensures(
            load_or_new,
            (character_id, participant_id, Ok::<Option<Relationship>, RepositoryError>(None), now),
            missed,
        ),
        call_ensures(Relationship::new, (character_id, participant_id, now), fresh),
    ensures
        found == Ok::<(Relationship, bool), RuntimeError>((rel, false)),
        missed == Ok::<(Relationship, bool), RuntimeError>((fresh, true)),
{
}

} // verus!
