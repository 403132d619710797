//! The proactive driver: in every round each binding is asked whether its
//! character acts of its own accord.

use vstd::prelude::*;

use crate::application::behavior_engine::{clock_time, time_of_day};
use crate::application::cognition_driver::{out_of_range, too_soon};
use crate::domain::behavior::{BehaviorAction, BehaviorDecision};
use crate::domain::character::{text_of, CharacterBinding, CharacterState, CharacterStateView};
use crate::domain::event::BehaviorDecidedEvent;
use crate::domain::mute::{is_muted, muted_at};
use crate::error::{DomainError, RepositoryError};
use crate::text::{concat, owned};
use crate::time::{Span, Timestamp};

verus! {

/// The pause between two rounds, in seconds.
pub const PROACTIVE_TICK_INTERVAL: u64 = 60;

/// The least time between two actions of a character, in seconds.
pub const PROACTIVE_COOLDOWN: u64 = 1800;

/// What a character does of its own accord: its new state, and what is made known.
#[derive(Debug)]
pub struct ProactiveUpdate {
    pub state: CharacterState,
    pub event: BehaviorDecidedEvent,
}

/// The character acted on its own too recently.
pub open spec fn rests(existing: Option<CharacterState>, cooldown: Span, now: Timestamp) -> bool {
    existing matches Some(s) && (s.last_proactive_at matches Some(last) && too_soon(
        now,
        last,
        cooldown,
    ))
}

/// The character acted on its own before.
pub open spec fn has_acted(existing: Option<CharacterState>) -> bool {
    existing matches Some(s) && s.last_proactive_at is Some
}

/// The binding is in question: it is switched on, and it is not quiet hours.
pub open spec fn in_question(binding: CharacterBinding, now: Timestamp) -> bool {
    binding.proactive_enabled && !muted_at(text_of(binding.mute_schedule), clock_time(now))
}

/// Decides whether the engine is asked about a binding. The state is looked at
/// only where the binding is in question.
pub fn may_act(
    binding: &CharacterBinding,
    existing: &Result<Option<CharacterState>, RepositoryError>,
    cooldown: Span,
    now: Timestamp,
) -> (r: Result<bool, DomainError>)
    ensures
        if !in_question(*binding, now) {
            r == Ok::<bool, DomainError>(false)
        } else {
            match existing {
                Err(e) => r matches Err(DomainError::Internal(s)) && s@ == "读取角色状态失败: "@
                    + e.text(),
                Ok(state) => if has_acted(*state) && !cooldown.comparable() {
                    r matches Err(DomainError::Internal(s)) && s@ == "冷却时长无效: "@
                        + out_of_range()
                } else {
                    r == Ok::<bool, DomainError>(!rests(*state, cooldown, now))
                },
            }
        },
{
    if !binding.proactive_enabled {
        return Ok(false);
    }
    if is_muted(&binding.mute_schedule, &time_of_day(now)) {
        return Ok(false);
    }
    match existing {
        Err(e) => Err(DomainError::Internal(concat("读取角色状态失败: ", e.message().as_str()))),
        Ok(Some(state)) => match state.last_proactive_at {
            Some(last) => {
                if !cooldown.is_comparable() {
                    return Err(
                        DomainError::Internal(
                            concat(
                                "冷却时长无效: ",
                                "Source duration value is out of range for the target type",
                            ),
                        ),
                    );
                }
                Ok(!(now.since(last) < cooldown.nanos as i128))
            },
            None => Ok(true),
        },
        Ok(None) => Ok(true),
    }
}

/// The update after a decision to act.
pub open spec fn updates(
    u: ProactiveUpdate,
    binding: CharacterBinding,
    existing: Option<CharacterState>,
    decision: BehaviorDecision,
    now: Timestamp,
) -> bool {
    let before = match existing {
        Some(s) => s@,
        None => CharacterStateView::fresh(now),
    };
    &&& u.state@ == CharacterStateView {
        last_proactive_at: Some(now),
        last_updated: now,
        ..before
    }
    &&& u.event.character_id == binding.character_id
    &&& u.event.conversation_id == binding.conversation_id
    &&& u.event.action@ == decision.action.label()
    &&& u.event.reason@ == decision.reason@
    &&& u.event.timestamp == now
}

/// Follows a decision of the engine: only the one to update the state has a
/// consequence.
pub fn act(
    binding: &CharacterBinding,
    existing: Option<CharacterState>,
    decision: BehaviorDecision,
    now: Timestamp,
) -> (r: Option<ProactiveUpdate>)
    ensures
        r is Some <==> decision.action == BehaviorAction::UpdateState,
        r matches Some(u) ==> updates(u, *binding, existing, decision, now),
{
    if decision.action != BehaviorAction::UpdateState {
        return None;
    }
    let mut state = match existing {
        Some(s) => s,
        None => CharacterState::default_at(now),
    };
    state.last_proactive_at = Some(now);
    state.last_updated = now;
    Some(
        ProactiveUpdate {
            state,
            event: BehaviorDecidedEvent {
                character_id: binding.character_id,
                conversation_id: binding.conversation_id,
                action: owned(decision.action.name()),
                reason: decision.reason,
                timestamp: now,
            },
        },
    )
}

/// What becomes of a binding in a round. The decision is looked at only where the
/// character may act.
pub open spec fn evaluation(
    binding: CharacterBinding,
    existing: Result<Option<CharacterState>, RepositoryError>,
    decision: Result<BehaviorDecision, DomainError>,
    cooldown: Span,
    now: Timestamp,
    r: Result<Option<ProactiveUpdate>, DomainError>,
) -> bool {
    if !in_question(binding, now) {
        r == Ok::<Option<ProactiveUpdate>, DomainError>(None)
    } else {
        match existing {
            Err(e) => r matches Err(DomainError::Internal(s)) && s@ == "读取角色状态失败: "@
                + e.text(),
            Ok(state) => if has_acted(state) && !cooldown.comparable() {
                r matches Err(DomainError::Internal(s)) && s@ == "冷却时长无效: "@ + out_of_range()
            } else if rests(state, cooldown, now) {
                r == Ok::<Option<ProactiveUpdate>, DomainError>(None)
            } else {
                match decision {
                    Err(e) => r == Err::<Option<ProactiveUpdate>, DomainError>(e),
                    Ok(d) => if d.action == BehaviorAction::UpdateState {
                        r matches Ok(Some(u)) && updates(u, binding, state, d, now)
                    } else {
                        r == Ok::<Option<ProactiveUpdate>, DomainError>(None)
                    },
                }
            },
        }
    }
}

/// Evaluates a binding.
pub fn evaluate_binding(
    binding: &CharacterBinding,
    existing: Result<Option<CharacterState>, RepositoryError>,
    decision: Result<BehaviorDecision, DomainError>,
    cooldown: Span,
    now: Timestamp,
) -> (r: Result<Option<ProactiveUpdate>, DomainError>)
    ensures
        evaluation(*binding, existing, decision, cooldown, now, r),
{
    match may_act(binding, &existing, cooldown, now) {
        Err(e) => {
            return Err(e);
        },
        Ok(may) => {
            if !may {
                return Ok(None);
            }
        },
    }
    let state = match existing {
        Ok(s) => s,
        Err(_) => None,
    };
    match decision {
        Err(e) => Err(e),
        Ok(d) => Ok(act(binding, state, d, now)),
    }
}

/// The error where the new state could not be stored.
pub fn store_failure(e: RepositoryError) -> (r: DomainError)
    ensures
        r matches DomainError::Internal(s) && s@ == "主动状态落库失败: "@ + e.text(),
{
    DomainError::Internal(concat("主动状态落库失败: ", e.message().as_str()))
}

/// Once a character has acted it rests until the cooldown is over.
pub proof fn actions_keep_their_distance(
    binding: CharacterBinding,
    existing: Result<Option<CharacterState>, RepositoryError>,
    decision: Result<BehaviorDecision, DomainError>,
    cooldown: Span,
    first: Timestamp,
    update: ProactiveUpdate,
    again: Result<BehaviorDecision, DomainError>,
    second: Timestamp,
    r: Result<Option<ProactiveUpdate>, DomainError>,
)
    requires
        evaluation(
            binding,
            existing,
            decision,
            cooldown,
            first,
            Ok::<Option<ProactiveUpdate>, DomainError>(Some(update)),
        ),
        evaluation(
            binding,
            Ok::<Option<CharacterState>, RepositoryError>(Some(update.state)),
            again,
            cooldown,
            second,
            r,
        ),
        second.instant() - first.instant() < cooldown.nanos,
    ensures
        !(r matches Ok(Some(_))),
        cooldown.comparable() ==> r == Ok::<Option<ProactiveUpdate>, DomainError>(None),
{
    assert(update.state.last_proactive_at == update.state@.last_proactive_at);
}

/// A binding is acted on exactly where acting unasked is switched on, outside quiet
/// hours, where the character has not acted within the cooldown, and where the
/// engine decided to.
pub proof fn rounds_act_where_they_may(
    binding: CharacterBinding,
    existing: Option<CharacterState>,
    decision: BehaviorDecision,
    cooldown: Span,
    now: Timestamp,
    r: Result<Option<ProactiveUpdate>, DomainError>,
)
    requires
        call_ensures(
            evaluate_binding,
            (
                &binding,
                Ok::<Option<CharacterState>, RepositoryError>(existing),
                Ok::<BehaviorDecision, DomainError>(decision),
                cooldown,
                now,
            ),
            r,
        ),
        cooldown.nanos <= 9_223_372_036_854_775_807_000_000,
    ensures
        r is Ok,
        r->Ok_0 is Some <==> {
            &&& binding.proactive_enabled
            &&& !muted_at(text_of(binding.mute_schedule), clock_time(now))
            &&& (existing is None || existing->0.last_proactive_at is None || (now.secs
                * 1_000_000_000 + now.nanos) - (existing->0.last_proactive_at->0.secs
                * 1_000_000_000 + existing->0.last_proactive_at->0.nanos) >= cooldown.nanos)
            &&& decision.action == BehaviorAction::UpdateState
        },
{
}

/// To act is to note the time in the state, which stays as it was otherwise, and to
/// make the decision known.
pub proof fn acting_notes_the_time(
    binding: CharacterBinding,
    existing: Option<CharacterState>,
    decision: BehaviorDecision,
    cooldown: Span,
    now: Timestamp,
    u: ProactiveUpdate,
)
    requires
        call_ensures(
            evaluate_binding,
            (
                &binding,
                Ok::<Option<CharacterState>, RepositoryError>(existing),
                Ok::<BehaviorDecision, DomainError>(decision),
                cooldown,
                now,
            ),
            Ok::<Option<ProactiveUpdate>, DomainError>(Some(u)),
        ),
    ensures
        u.state.last_proactive_at == Some(now),
        u.state.last_updated == now,
        existing matches Some(s) ==> u.state.energy == s.energy && u.state.stress == s.stress
            && u.state.attention == s.attention && text_of(u.state.current_activity) == text_of(
            s.current_activity,
        ) && text_of(u.state.social_mood) == text_of(s.social_mood),
        existing is None ==> u.state.energy.bits == 0x4052_0000_0000_0000 && u.state.attention.bits
            == 0x4049_0000_0000_0000 && u.state.stress.bits == 0x4024_0000_0000_0000,
        u.event.character_id == binding.character_id,
        u.event.conversation_id == binding.conversation_id,
        u.event.action@ == "UpdateState"@,
        u.event.reason@ == decision.reason@,
        u.event.timestamp == now,
{
    assert(u.state@.energy == u.state.energy && u.state@.stress == u.state.stress
        && u.state@.attention == u.state.attention && u.state@.last_proactive_at
        == u.state.last_proactive_at && u.state@.last_updated == u.state.last_updated
        && u.state@.current_activity == text_of(u.state.current_activity) && u.state@.social_mood
        == text_of(u.state.social_mood));
}

/// A round comes every minute, and a character acts every half hour at most.
pub proof fn how_often_rounds_come()
    ensures
        PROACTIVE_TICK_INTERVAL == 60,
        PROACTIVE_COOLDOWN == 30 * 60,
{
}

/// The engine is asked about a binding exactly where acting unasked is switched on,
/// outside quiet hours, and where the character has not acted within the cooldown. A
/// state that could not be read stops a binding that is in question.
pub proof fn bindings_in_question_are_asked_about(
    binding: CharacterBinding,
    existing: Result<Option<CharacterState>, RepositoryError>,
    cooldown: Span,
    now: Timestamp,
    r: Result<bool, DomainError>,
)
    requires
        call_ensures(may_act, (&binding, &existing, cooldown, now), r),
        cooldown.nanos <= 9_223_372_036_854_775_807_000_000,
    ensures
        ({
            let open = binding.proactive_enabled && !muted_at(
                text_of(binding.mute_schedule),
                clock_time(now),
            );
            &&& !open ==> r == Ok::<bool, DomainError>(false)
            &&& open && existing is Err ==> r is Err
            &&& open && existing is Ok ==> r == Ok::<bool, DomainError>(
                existing->Ok_0 is None || existing->Ok_0->0.last_proactive_at is None || (now.secs
                    * 1_000_000_000 + now.nanos) - (existing->Ok_0->0.last_proactive_at->0.secs
                    * 1_000_000_000 + existing->Ok_0->0.last_proactive_at->0.nanos)
                    >= cooldown.nanos,
            )
        }),
{
}

/// A decision that failed is handed on where the character may act, and does not matter
/// where it may not.
pub proof fn failed_decisions_are_handed_on(
    binding: CharacterBinding,
    existing: Option<CharacterState>,
    e: DomainError,
    cooldown: Span,
    now: Timestamp,
    may: Result<bool, DomainError>,
    r: Result<Option<ProactiveUpdate>, DomainError>,
)
    requires
        call_ensures(
            may_act,
            (&binding, &Ok::<Option<CharacterState>, RepositoryError>(existing), cooldown, now),
            may,
        ),
        call_ensures(
            evaluate_binding,
            (
                &binding,
                Ok::<Option<CharacterState>, RepositoryError>(existing),
                Err::<BehaviorDecision, DomainError>(e),
                cooldown,
                now,
            ),
            r,
        ),
    ensures
        may == Ok::<bool, DomainError>(true) ==> r == Err::<Option<ProactiveUpdate>, DomainError>(e),
        may == Ok::<bool, DomainError>(false) ==> r == Ok::<Option<ProactiveUpdate>, DomainError>(
            None,
        ),
{
}

} // verus!
