//! Moods and emotions.

use vstd::prelude::*;

use crate::domain::character::{clamp_percent, percent};
use crate::domain::memory::{clamp_share, share};
use crate::scalar::{Scalar, FIFTY, HALF, SEVEN_TENTHS, TENTH, THREE_TENTHS, ZERO};
use crate::text::same_text;
use crate::time::Timestamp;

verus! {

/// The mood of a character in one conversation.
#[derive(Debug, Clone, Copy, PartialEq, Eq, Structural)]
pub struct Mood {
    /// 0 to 100.
    pub value: Scalar,
    /// When it was last changed.
    pub last_updated: Timestamp,
}

impl Mood {
    /// The mood in a conversation of which nothing was stored.
    pub open spec fn fresh(now: Timestamp) -> Mood {
        Mood { value: Scalar { bits: FIFTY }, last_updated: now }
    }

    /// The mood bounded to `[0, 100]`.
    pub open spec fn bounded(self) -> Mood {
        Mood { value: percent(self.value), last_updated: self.last_updated }
    }

    /// The mood in a conversation of which nothing was stored.
    pub fn default_at(now: Timestamp) -> (r: Mood)
        ensures
            r == Mood::fresh(now),
    {
        Mood { value: Scalar { bits: FIFTY }, last_updated: now }
    }

    /// Bounds the mood to `[0, 100]`.
    pub fn clamped(self) -> (r: Mood)
        ensures
            r == self.bounded(),
    {
        Mood { value: clamp_percent(self.value), last_updated: self.last_updated }
    }
}

/// What a character feels, each feeling between 0 and 1.
#[derive(Debug, Clone, Copy, PartialEq, Eq, Structural)]
pub struct EmotionState {
    pub happiness: Scalar,
    pub anger: Scalar,
    pub sadness: Scalar,
    pub fear: Scalar,
    pub affection: Scalar,
    pub stress: Scalar,
    pub energy: Scalar,
    /// When it was last changed.
    pub last_updated: Timestamp,
}

/// One of the feelings.
#[derive(Debug, Clone, Copy, PartialEq, Eq, Structural)]
pub enum Dimension {
    Happiness,
    Anger,
    Sadness,
    Fear,
    Affection,
    Stress,
    Energy,
}

/// The feeling that a name stands for.
pub open spec fn named_dimension(name: Seq<char>) -> Option<Dimension> {
    if name == "happiness"@ {
        Some(Dimension::Happiness)
    } else if name == "anger"@ {
        Some(Dimension::Anger)
    } else if name == "sadness"@ {
        Some(Dimension::Sadness)
    } else if name == "fear"@ {
        Some(Dimension::Fear)
    } else if name == "affection"@ {
        Some(Dimension::Affection)
    } else if name == "stress"@ {
        Some(Dimension::Stress)
    } else if name == "energy"@ {
        Some(Dimension::Energy)
    } else {
        None
    }
}

/// Finds the feeling that a name stands for.
pub fn dimension_of(name: &str) -> (r: Option<Dimension>)
    ensures
        r == named_dimension(name@),
{
    if same_text(name, "happiness") {
        Some(Dimension::Happiness)
    } else if same_text(name, "anger") {
        Some(Dimension::Anger)
    } else if same_text(name, "sadness") {
        Some(Dimension::Sadness)
    } else if same_text(name, "fear") {
        Some(Dimension::Fear)
    } else if same_text(name, "affection") {
        Some(Dimension::Affection)
    } else if same_text(name, "stress") {
        Some(Dimension::Stress)
    } else if same_text(name, "energy") {
        Some(Dimension::Energy)
    } else {
        None
    }
}

/// A change of one feeling.
#[derive(Debug)]
pub struct EmotionAdjustment {
    pub dimension: String,
    pub value: Scalar,
}

/// What happened to a character.
#[derive(Debug, Clone, Copy, PartialEq, Eq, Structural)]
pub enum EmotionEventType {
    MessageReceived,
}

/// Something that moves a character.
#[derive(Debug)]
pub struct EmotionEvent {
    pub event_type: EmotionEventType,
    pub adjustments: Vec<EmotionAdjustment>,
    pub description: Option<String>,
}

impl EmotionState {
    /// The feelings of a character of which nothing was stored.
    pub open spec fn fresh(now: Timestamp) -> EmotionState {
        EmotionState {
            happiness: Scalar { bits: HALF },
            anger: Scalar { bits: ZERO },
            sadness: Scalar { bits: ZERO },
            fear: Scalar { bits: ZERO },
            affection: Scalar { bits: THREE_TENTHS },
            stress: Scalar { bits: TENTH },
            energy: Scalar { bits: SEVEN_TENTHS },
            last_updated: now,
        }
    }

    /// How strong a feeling is.
    pub open spec fn level(self, d: Dimension) -> Scalar {
        match d {
            Dimension::Happiness => self.happiness,
            Dimension::Anger => self.anger,
            Dimension::Sadness => self.sadness,
            Dimension::Fear => self.fear,
            Dimension::Affection => self.affection,
            Dimension::Stress => self.stress,
            Dimension::Energy => self.energy,
        }
    }

    /// The state with another strength of one feeling.
    pub open spec fn with(self, d: Dimension, x: Scalar) -> EmotionState {
        match d {
            Dimension::Happiness => EmotionState { happiness: x, ..self },
            Dimension::Anger => EmotionState { anger: x, ..self },
            Dimension::Sadness => EmotionState { sadness: x, ..self },
            Dimension::Fear => EmotionState { fear: x, ..self },
            Dimension::Affection => EmotionState { affection: x, ..self },
            Dimension::Stress => EmotionState { stress: x, ..self },
            Dimension::Energy => EmotionState { energy: x, ..self },
        }
    }

    /// The feelings of a character of which nothing was stored.
    pub fn default_at(now: Timestamp) -> (r: EmotionState)
        ensures
            r == EmotionState::fresh(now),
    {
        EmotionState {
            happiness: Scalar { bits: HALF },
            anger: Scalar { bits: ZERO },
            sadness: Scalar { bits: ZERO },
            fear: Scalar { bits: ZERO },
            affection: Scalar { bits: THREE_TENTHS },
            stress: Scalar { bits: TENTH },
            energy: Scalar { bits: SEVEN_TENTHS },
            last_updated: now,
        }
    }

    /// How strong a feeling is.
    pub fn get(&self, d: Dimension) -> (r: Scalar)
        ensures
            r == self.level(d),
    {
        match d {
            Dimension::Happiness => self.happiness,
            Dimension::Anger => self.anger,
            Dimension::Sadness => self.sadness,
            Dimension::Fear => self.fear,
            Dimension::Affection => self.affection,
            Dimension::Stress => self.stress,
            Dimension::Energy => self.energy,
        }
    }

    /// Sets the strength of one feeling.
    pub fn set(&mut self, d: Dimension, x: Scalar)
        ensures
            *final(self) == old(self).with(d, x),
    {
        match d {
            Dimension::Happiness => {
                self.happiness = x;
            },
            Dimension::Anger => {
                self.anger = x;
            },
            Dimension::Sadness => {
                self.sadness = x;
            },
            Dimension::Fear => {
                self.fear = x;
            },
            Dimension::Affection => {
                self.affection = x;
            },
            Dimension::Stress => {
                self.stress = x;
            },
            Dimension::Energy => {
                self.energy = x;
            },
        }
    }

    /// One change leads from one state to another: the feeling it names is set to
    /// a sum that `sum` may give, bounded to `[0, 1]`; a name that stands for no
    /// feeling changes nothing.
    pub open spec fn moved<F: Fn(Scalar, Scalar) -> Scalar>(
        sum: F,
        before: EmotionState,
        change: EmotionAdjustment,
        after: EmotionState,
    ) -> bool {
        match named_dimension(change.dimension@) {
            Some(d) => exists|total: Scalar|
                #[trigger] call_ensures(sum, (before.level(d), change.value), total) && after
                    == before.with(d, share(total)),
            None => after == before,
        }
    }

    /// The changes, one after the other, lead from one state to another.
    pub open spec fn moved_by<F: Fn(Scalar, Scalar) -> Scalar>(
        sum: F,
        before: EmotionState,
        changes: Seq<EmotionAdjustment>,
        after: EmotionState,
    ) -> bool
        decreases changes.len(),
    {
        if changes.len() == 0 {
            after == before
        } else {
            exists|mid: EmotionState|
                EmotionState::moved_by(sum, before, changes.drop_last(), mid)
                    && #[trigger] EmotionState::moved(sum, mid, changes.last(), after)
        }
    }

    /// Applies the changes of an event; `sum` adds two numbers.
    pub fn apply_event<F: Fn(Scalar, Scalar) -> Scalar>(
        &self,
        event: &EmotionEvent,
        sum: &F,
    ) -> (r: EmotionState)
        requires
            forall|x: Scalar, y: Scalar| call_requires(*sum, (x, y)),
        ensures
            EmotionState::moved_by(*sum, *self, event.adjustments@, r),
    {
        let mut state = *self;
        let changes = &event.adjustments;
        let mut i: usize = 0;
        assert(changes@.take(0) =~= Seq::<EmotionAdjustment>::empty());
        while i < changes.len()
            invariant
                i <= changes@.len(),
                EmotionState::moved_by(*sum, *self, changes@.take(i as int), state),
                forall|x: Scalar, y: Scalar| call_requires(*sum, (x, y)),
            decreases changes@.len() - i,
        {
            let ghost before = state;
            if let Some(d) = dimension_of(changes[i].dimension.as_str()) {
                let total = sum(state.get(d), changes[i].value);
                state.set(d, clamp_share(total));
            }
            proof {
                let next = changes@.take(i + 1);
                assert(next.drop_last() =~= changes@.take(i as int));
                assert(next.last() == changes@[i as int]);
                assert(EmotionState::moved(*sum, before, next.last(), state));
                assert(EmotionState::moved_by(*sum, *self, next.drop_last(), before));
            }
            i += 1;
        }
        assert(changes@.take(i as int) =~= changes@);
        state
    }

    /// Moves every feeling as `relax` moves a level towards its rest; the rest is
    /// the level that the feeling starts from.
    pub fn apply_decay<F: Fn(Scalar, Scalar) -> Scalar>(&mut self, relax: &F)
        requires
            forall|x: Scalar, y: Scalar| call_requires(*relax, (x, y)),
        ensures
            final(self).last_updated == old(self).last_updated,
            forall|d: Dimension|
                call_ensures(
                    *relax,
                    (old(self).level(d), EmotionState::fresh(old(self).last_updated).level(d)),
                    #[trigger] final(self).level(d),
                ),
    {
        let rest = EmotionState::default_at(self.last_updated);
        self.happiness = relax(self.happiness, rest.happiness);
        self.anger = relax(self.anger, rest.anger);
        self.sadness = relax(self.sadness, rest.sadness);
        self.fear = relax(self.fear, rest.fear);
        self.affection = relax(self.affection, rest.affection);
        self.stress = relax(self.stress, rest.stress);
        self.energy = relax(self.energy, rest.energy);
    }
}

/// Each feeling goes by its name, and no other name stands for one.
pub proof fn feelings_go_by_their_names(name: Seq<char>)
    ensures
        named_dimension("happiness"@) == Some(Dimension::Happiness),
        named_dimension("anger"@) == Some(Dimension::Anger),
        named_dimension("sadness"@) == Some(Dimension::Sadness),
        named_dimension("fear"@) == Some(Dimension::Fear),
        named_dimension("affection"@) == Some(Dimension::Affection),
        named_dimension("stress"@) == Some(Dimension::Stress),
        named_dimension("energy"@) == Some(Dimension::Energy),
        named_dimension(name) is Some ==> name == "happiness"@ || name == "anger"@ || name
            == "sadness"@ || name == "fear"@ || name == "affection"@ || name == "stress"@ || name
            == "energy"@,
{
    reveal_strlit("happiness");
    reveal_strlit("anger");
    reveal_strlit("sadness");
    reveal_strlit("fear");
    reveal_strlit("affection");
    reveal_strlit("stress");
    reveal_strlit("energy");
    assert("happiness"@.len() == 9 && "anger"@.len() == 5 && "sadness"@.len() == 7 && "fear"@.len()
        == 4 && "affection"@.len() == 9 && "stress"@.len() == 6 && "energy"@.len() == 6);
    assert("happiness"@[0] == 'h' && "affection"@[0] == 'a');
    assert("stress"@[0] == 's' && "energy"@[0] == 'e');
}

/// What is set is what is read, and nothing else changes.
pub proof fn setting_a_feeling(s: EmotionState, d: Dimension, e: Dimension, x: Scalar)
    ensures
        s.with(d, x).level(d) == x,
        e != d ==> s.with(d, x).level(e) == s.level(e),
        s.with(d, x).last_updated == s.last_updated,
        s.level(Dimension::Happiness) == s.happiness,
        s.level(Dimension::Anger) == s.anger,
        s.level(Dimension::Sadness) == s.sadness,
        s.level(Dimension::Fear) == s.fear,
        s.level(Dimension::Affection) == s.affection,
        s.level(Dimension::Stress) == s.stress,
        s.level(Dimension::Energy) == s.energy,
{
}

/// A fresh character is half happy, 0.3 fond, 0.1 stressed and 0.7 lively, and
/// neither angry nor sad nor afraid; a fresh mood is 50.
pub proof fn fresh_feelings(now: Timestamp, s: EmotionState, m: Mood)
    requires
        call_ensures(EmotionState::default_at, (now,), s),
        call_ensures(Mood::default_at, (now,), m),
    ensures
        s.happiness.bits == 0x3FE0_0000_0000_0000,
        s.anger.bits == 0,
        s.sadness.bits == 0,
        s.fear.bits == 0,
        s.affection.bits == 0x3FD3_3333_3333_3333,
        s.stress.bits == 0x3FB9_9999_9999_999A,
        s.energy.bits == 0x3FE6_6666_6666_6666,
        s.last_updated == now,
        m.value.bits == 0x4049_0000_0000_0000,
        m.last_updated == now,
{
}

/// An event without changes moves nothing. With one more change the feeling that it
/// names becomes the sum of what it was and the change, bounded to 0 and 1; every
/// other feeling stays what the changes before made it.
pub proof fn each_change_moves_its_feeling<F: Fn(Scalar, Scalar) -> Scalar>(
    sum: F,
    before: EmotionState,
    changes: Seq<EmotionAdjustment>,
    last: EmotionAdjustment,
    after: EmotionState,
)
    requires
        EmotionState::moved_by(sum, before, changes.push(last), after),
    ensures
        exists|mid: EmotionState|
            {
                &&& #[trigger] EmotionState::moved_by(sum, before, changes, mid)
                &&& named_dimension(last.dimension@) is None ==> after == mid
                &&& named_dimension(last.dimension@) matches Some(d) ==> {
                    &&& exists|total: Scalar|
                        #[trigger] call_ensures(sum, (mid.level(d), last.value), total)
                            && after.level(d) == total.bounded(
                            Scalar { bits: 0 },
                            Scalar { bits: 0x3FF0_0000_0000_0000 },
                        )
                    &&& forall|e: Dimension| e != d ==> #[trigger] after.level(e) == mid.level(e)
                }
                &&& after.last_updated == mid.last_updated
            },
        changes.len() == 0 ==> EmotionState::moved_by(sum, before, changes, before),
{
    assert(changes.push(last).drop_last() =~= changes);
    let mid = choose|mid: EmotionState|
        EmotionState::moved_by(sum, before, changes, mid) && #[trigger] EmotionState::moved(
            sum,
            mid,
            last,
            after,
        );
    assert(EmotionState::moved_by(sum, before, changes, mid));
    if let Some(d) = named_dimension(last.dimension@) {
        let total = choose|total: Scalar|
            #[trigger] call_ensures(sum, (mid.level(d), last.value), total) && after == mid.with(
                d,
                share(total),
            );
        assert(call_ensures(sum, (mid.level(d), last.value), total));
    }
}

/// An event leads by its changes, all of them and in their order, to what comes of it.
pub proof fn events_apply_all_their_changes<F: Fn(Scalar, Scalar) -> Scalar>(
    s: EmotionState,
    event: EmotionEvent,
    sum: F,
    r: EmotionState,
    last: EmotionAdjustment,
    changes: Seq<EmotionAdjustment>,
)
    requires
        call_ensures(EmotionState::apply_event::<F>, (&s, &event, &sum), r),
    ensures
        event.adjustments@.len() == 0 ==> r == s,
        event.adjustments@ == changes.push(last) && named_dimension(last.dimension@) is Some
            ==> exists|mid: EmotionState, total: Scalar|
            {
                &&& #[trigger] EmotionState::moved_by(sum, s, changes, mid)
                &&& #[trigger] call_ensures(
                    sum,
                    (mid.level(named_dimension(last.dimension@)->0), last.value),
                    total,
                )
                &&& r.level(named_dimension(last.dimension@)->0) == total.bounded(
                    Scalar { bits: 0 },
                    Scalar { bits: 0x3FF0_0000_0000_0000 },
                )
            },
{
    if event.adjustments@ == changes.push(last) && named_dimension(last.dimension@) is Some {
        each_change_moves_its_feeling(sum, s, changes, last, r);
        let d = named_dimension(last.dimension@)->0;
        let mid = choose|mid: EmotionState|
            {
                &&& #[trigger] EmotionState::moved_by(sum, s, changes, mid)
                &&& exists|total: Scalar|
                    #[trigger] call_ensures(sum, (mid.level(d), last.value), total) && r.level(d)
                        == total.bounded(
                        Scalar { bits: 0 },
                        Scalar { bits: 0x3FF0_0000_0000_0000 },
                    )
            };
        let total = choose|total: Scalar|
            #[trigger] call_ensures(sum, (mid.level(d), last.value), total) && r.level(d)
                == total.bounded(Scalar { bits: 0 }, Scalar { bits: 0x3FF0_0000_0000_0000 });
        assert(EmotionState::moved_by(sum, s, changes, mid));
        assert(call_ensures(sum, (mid.level(d), last.value), total));
    }
}

} // verus!
