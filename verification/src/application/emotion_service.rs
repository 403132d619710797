//! How messages move the emotions.

use vstd::prelude::*;

use crate::domain::emotion::{
    Dimension, EmotionAdjustment, EmotionEvent, EmotionEventType, EmotionState,
};
use crate::domain::event::EmotionChangedEvent;
use crate::error::{RepositoryError, RuntimeError};
use crate::scalar::{Scalar, MINUS_HUNDREDTH, THREE_HUNDREDTHS, TWO_HUNDREDTHS};
use crate::text::owned;
use crate::time::Timestamp;

verus! {

/// The emotion in a conversation, and whether it must be stored because it was not
/// yet.
pub fn load(found: Result<Option<EmotionState>, RepositoryError>, now: Timestamp) -> (r: Result<
    (EmotionState, bool),
    RuntimeError,
>)
    ensures
        r == (match found {
            Err(e) => Err::<(EmotionState, bool), RuntimeError>(RuntimeError::Repository(e)),
            Ok(Some(state)) => Ok((state, false)),
            Ok(None) => Ok((EmotionState::fresh(now), true)),
        }),
{
    match found {
        Err(e) => Err(RuntimeError::Repository(e)),
        Ok(Some(state)) => Ok((state, false)),
        Ok(None) => Ok((EmotionState::default_at(now), true)),
    }
}

/// The whole seconds since the emotion was last changed; zero where that lies in
/// the future.
pub fn elapsed_seconds(state: &EmotionState, now: Timestamp) -> (r: i128)
    ensures
        r == if now.instant() < state.last_updated.instant() {
            0
        } else {
            (now.instant() - state.last_updated.instant()) / 1_000_000_000
        },
{
    let distance: i128 = now.since(state.last_updated);
    if distance < 0 {
        0
    } else {
        distance / 1_000_000_000
    }
}

/// The changes that a message makes: happiness grows by 0.03 and affection by
/// 0.02, energy falls by 0.01.
pub open spec fn message_changes(changes: Seq<EmotionAdjustment>) -> bool {
    &&& changes.len() == 3
    &&& changes[0].dimension@ == "happiness"@ && changes[0].value == Scalar { bits: THREE_HUNDREDTHS }
    &&& changes[1].dimension@ == "affection"@ && changes[1].value == Scalar { bits: TWO_HUNDREDTHS }
    &&& changes[2].dimension@ == "energy"@ && changes[2].value == Scalar { bits: MINUS_HUNDREDTH }
}

/// What a message does to a character.
pub fn message_event() -> (r: EmotionEvent)
    ensures
        r.event_type == EmotionEventType::MessageReceived,
        message_changes(r.adjustments@),
        r.description matches Some(s) && s@ == "收到用户消息"@,
{
    let mut adjustments: Vec<EmotionAdjustment> = Vec::new();
    adjustments.push(
        EmotionAdjustment {
            dimension: owned("happiness"),
            value: Scalar { bits: THREE_HUNDREDTHS },
        },
    );
    adjustments.push(
        EmotionAdjustment { dimension: owned("affection"), value: Scalar { bits: TWO_HUNDREDTHS } },
    );
    adjustments.push(
        EmotionAdjustment { dimension: owned("energy"), value: Scalar { bits: MINUS_HUNDREDTH } },
    );
    EmotionEvent {
        event_type: EmotionEventType::MessageReceived,
        adjustments,
        description: Some(owned("收到用户消息")),
    }
}

/// Every feeling of one state is what `relax` may make of it in the other.
pub open spec fn relaxed<G: Fn(Scalar, Scalar) -> Scalar>(
    relax: G,
    before: EmotionState,
    after: EmotionState,
) -> bool {
    after.last_updated == before.last_updated && forall|d: Dimension|
        call_ensures(
            relax,
            (before.level(d), EmotionState::fresh(before.last_updated).level(d)),
            #[trigger] after.level(d),
        )
}

/// A message moves a state to another: first every feeling relaxes, then the
/// changes of the message are applied, one after the other.
pub open spec fn moved_by_message<
    G: Fn(Scalar, Scalar) -> Scalar,
    F: Fn(Scalar, Scalar) -> Scalar,
>(relax: G, sum: F, before: EmotionState, after: EmotionState) -> bool {
    exists|rested: EmotionState, changes: Seq<EmotionAdjustment>|
        {
            &&& #[trigger] relaxed(relax, before, rested)
            &&& message_changes(changes)
            &&& #[trigger] EmotionState::moved_by(sum, rested, changes, after)
        }
}

/// The emotion after a message. `relax` moves a level towards its rest as the
/// time that passed demands, `sum` adds two numbers. The change is handed out to
/// be made known.
pub fn apply_message_event<G: Fn(Scalar, Scalar) -> Scalar, F: Fn(Scalar, Scalar) -> Scalar>(
    character_id: i64,
    conversation_id: i64,
    state: EmotionState,
    relax: &G,
    sum: &F,
    now: Timestamp,
) -> (r: (EmotionState, EmotionChangedEvent))
    requires
        forall|x: Scalar, y: Scalar| call_requires(*relax, (x, y)),
        forall|x: Scalar, y: Scalar| call_requires(*sum, (x, y)),
    ensures
        exists|moved: EmotionState|
            #[trigger] moved_by_message(*relax, *sum, state, moved) && r.0 == (EmotionState {
                last_updated: now,
                ..moved
            }),
        r.1 == (EmotionChangedEvent { character_id, conversation_id, timestamp: now }),
{
    let mut rested = state;
    rested.apply_decay(relax);
    let event = message_event();
    let moved = rested.apply_event(&event, sum);
    proof {
        assert(relaxed(*relax, state, rested));
        assert(EmotionState::moved_by(*sum, rested, event.adjustments@, moved));
        assert(moved_by_message(*relax, *sum, state, moved));
    }
    let mut after = moved;
    after.last_updated = now;
    (after, EmotionChangedEvent { character_id, conversation_id, timestamp: now })
}

/// A message lets every feeling relax towards its rest, then adds 0.03 to the
/// happiness and 0.02 to the affection and takes 0.01 off the energy, within 0 and
/// 1; the other feelings only relax.
pub proof fn what_a_message_does<G: Fn(Scalar, Scalar) -> Scalar, F: Fn(Scalar, Scalar) -> Scalar>(
    character_id: i64,
    conversation_id: i64,
    state: EmotionState,
    relax: G,
    sum: F,
    now: Timestamp,
    r: (EmotionState, EmotionChangedEvent),
)
    requires
        call_ensures(
            apply_message_event::<G, F>,
            (character_id, conversation_id, state, &relax, &sum, now),
            r,
        ),
    ensures
        gains(
            relax,
            sum,
            state.happiness,
            Scalar { bits: 0x3FE0_0000_0000_0000 },
            Scalar { bits: 0x3F9E_B851_EB85_1EB8 },
            r.0.happiness,
        ),
        gains(
            relax,
            sum,
            state.affection,
            Scalar { bits: 0x3FD3_3333_3333_3333 },
            Scalar { bits: 0x3F94_7AE1_47AE_147B },
            r.0.affection,
        ),
        gains(
            relax,
            sum,
            state.energy,
            Scalar { bits: 0x3FE6_6666_6666_6666 },
            Scalar { bits: 0xBF84_7AE1_47AE_147B },
            r.0.energy,
        ),
        call_ensures(relax, (state.anger, Scalar { bits: 0 }), r.0.anger),
        call_ensures(relax, (state.sadness, Scalar { bits: 0 }), r.0.sadness),
        call_ensures(relax, (state.fear, Scalar { bits: 0 }), r.0.fear),
        call_ensures(relax, (state.stress, Scalar { bits: 0x3FB9_9999_9999_999A }), r.0.stress),
        r.0.last_updated == now,
        r.1.character_id == character_id && r.1.conversation_id == conversation_id && r.1.timestamp
            == now,
{
    let moved = choose|moved: EmotionState|
        #[trigger] moved_by_message(relax, sum, state, moved) && r.0 == (EmotionState {
            last_updated: now,
            ..moved
        });
    let (rested, changes) = choose|rested: EmotionState, changes: Seq<EmotionAdjustment>|
        {
            &&& #[trigger] relaxed(relax, state, rested)
            &&& message_changes(changes)
            &&& #[trigger] EmotionState::moved_by(sum, rested, changes, moved)
        };
    crate::domain::emotion::feelings_go_by_their_names(Seq::empty());
    let two = changes.drop_last();
    let one = two.drop_last();
    let b = choose|mid: EmotionState|
        EmotionState::moved_by(sum, rested, two, mid) && #[trigger] EmotionState::moved(
            sum,
            mid,
            changes.last(),
            moved,
        );
    let a = choose|mid: EmotionState|
        EmotionState::moved_by(sum, rested, one, mid) && #[trigger] EmotionState::moved(
            sum,
            mid,
            two.last(),
            b,
        );
    let zero = choose|mid: EmotionState|
        EmotionState::moved_by(sum, rested, one.drop_last(), mid)
            && #[trigger] EmotionState::moved(sum, mid, one.last(), a);
    assert(zero == rested);
    let h = choose|total: Scalar|
        #[trigger] call_ensures(sum, (rested.happiness, one.last().value), total) && a
            == rested.with(Dimension::Happiness, crate::domain::memory::share(total));
    let f = choose|total: Scalar|
        #[trigger] call_ensures(sum, (a.affection, two.last().value), total) && b == a.with(
            Dimension::Affection,
            crate::domain::memory::share(total),
        );
    let e = choose|total: Scalar|
        #[trigger] call_ensures(sum, (b.energy, changes.last().value), total) && moved == b.with(
            Dimension::Energy,
            crate::domain::memory::share(total),
        );
    assert(rested.level(Dimension::Happiness) == rested.happiness);
    assert(rested.level(Dimension::Affection) == rested.affection);
    assert(rested.level(Dimension::Energy) == rested.energy);
    assert(rested.level(Dimension::Anger) == rested.anger);
    assert(rested.level(Dimension::Sadness) == rested.sadness);
    assert(rested.level(Dimension::Fear) == rested.fear);
    assert(rested.level(Dimension::Stress) == rested.stress);
    assert(call_ensures(sum, (rested.happiness, Scalar { bits: 0x3F9E_B851_EB85_1EB8 }), h));
    assert(call_ensures(sum, (rested.affection, Scalar { bits: 0x3F94_7AE1_47AE_147B }), f));
    assert(call_ensures(sum, (rested.energy, Scalar { bits: 0xBF84_7AE1_47AE_147B }), e));
}

/// A level relaxes towards its rest and then gains so much, within 0 and 1.
pub open spec fn gains<G: Fn(Scalar, Scalar) -> Scalar, F: Fn(Scalar, Scalar) -> Scalar>(
    relax: G,
    sum: F,
    before: Scalar,
    rest: Scalar,
    gain: Scalar,
    after: Scalar,
) -> bool {
    exists|relaxed: Scalar, total: Scalar|
        {
            &&& #[trigger] call_ensures(relax, (before, rest), relaxed)
            &&& #[trigger] call_ensures(sum, (relaxed, gain), total)
            &&& after == total.bounded(
                Scalar { bits: 0 },
                Scalar { bits: 0x3FF0_0000_0000_0000 },
            )
        }
}

/// The time that passed is counted in whole seconds, and none where the emotion was
/// changed in the future.
pub proof fn whole_seconds_pass(state: EmotionState, now: Timestamp, r: i128)
    requires
        call_ensures(elapsed_seconds, (&state, now), r),
    ensures
        ({
            let passed = (now.secs - state.last_updated.secs) * 1_000_000_000 + (now.nanos
                - state.last_updated.nanos);
            &&& passed < 0 ==> r == 0
            &&& passed >= 0 ==> r * 1_000_000_000 <= passed < (r + 1) * 1_000_000_000
        }),
{
}

/// An emotion that was found is taken as it is; one that was not is a fresh one, and
/// must be stored.
pub proof fn emotions_are_found_or_fresh(
    state: EmotionState,
    now: Timestamp,
    found: Result<(EmotionState, bool), RuntimeError>,
    missed: Result<(EmotionState, bool), RuntimeError>,
    fresh: EmotionState,
)
    requires
        call_ensures(load, (Ok::<Option<EmotionState>, RepositoryError>(Some(state)), now), found),
        call_ensures(load, (Ok::<Option<EmotionState>, RepositoryError>(None), now), missed),
        call_ensures(EmotionState::default_at, (now,), fresh),
    ensures
        found == Ok::<(EmotionState, bool), RuntimeError>((state, false)),
        missed == Ok::<(EmotionState, bool), RuntimeError>((fresh, true)),
{
}

} // verus!
