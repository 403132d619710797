//! The characters that are loaded, and changes of their states.

use vstd::prelude::*;

use std::collections::HashMap;

use crate::domain::character::{Character, CharacterState, CharacterStateView};
use crate::domain::event::CharacterStateChangedEvent;
use crate::error::{DomainError, RepositoryError, RuntimeError};
use crate::json::{Json, JsonView};
use crate::scalar::Scalar;
use crate::text::{owned, same_text};
use crate::time::Timestamp;

verus! {

/// The characters that are loaded, by number.
pub struct CharacterRuntime {
    pub cache: HashMap<i64, Character>,
}

/// A character as it was loaded.
#[derive(Debug)]
pub struct Loaded {
    pub character: Character,
    /// There where the state was not stored yet: then the state of the character
    /// must be stored, and this be made known.
    pub initialised: Option<CharacterStateChangedEvent>,
}

/// What loading a character from the storage comes to. One whose state is not stored
/// gets a fresh one.
pub open spec fn loads(
    id: i64,
    character: Result<Option<Character>, RepositoryError>,
    state: Result<Option<CharacterState>, RepositoryError>,
    now: Timestamp,
    r: Result<Loaded, RuntimeError>,
) -> bool {
    match (character, state) {
        (Err(e), _) => r == Err::<Loaded, RuntimeError>(RuntimeError::Repository(e)),
        (Ok(None), _) => r == Err::<Loaded, RuntimeError>(
            RuntimeError::Domain(DomainError::CharacterNotFound(id)),
        ),
        (Ok(Some(_)), Err(e)) => r == Err::<Loaded, RuntimeError>(RuntimeError::Repository(e)),
        (Ok(Some(c)), Ok(Some(s))) => r == Ok::<Loaded, RuntimeError>(
            Loaded { character: Character { state: s, ..c }, initialised: None },
        ),
        (Ok(Some(c)), Ok(None)) => r matches Ok(loaded) && ({
            &&& loaded.character == (Character { state: loaded.character.state, ..c })
            &&& loaded.character.state@ == CharacterStateView::fresh(now)
            &&& loaded.initialised == Some(
                CharacterStateChangedEvent { character_id: id, timestamp: now },
            )
        }),
    }
}

/// Loads a character from what the storage holds. One whose state is not stored
/// gets a fresh one.
pub fn load_character_unlocked(
    id: i64,
    character: Result<Option<Character>, RepositoryError>,
    state: Result<Option<CharacterState>, RepositoryError>,
    now: Timestamp,
) -> (r: Result<Loaded, RuntimeError>)
    ensures
        loads(id, character, state, now, r),
{
    let c = match character {
        Err(e) => {
            return Err(RuntimeError::Repository(e));
        },
        Ok(None) => {
            return Err(RuntimeError::Domain(DomainError::CharacterNotFound(id)));
        },
        Ok(Some(c)) => c,
    };
    match state {
        Err(e) => Err(RuntimeError::Repository(e)),
        Ok(Some(s)) => Ok(
            Loaded {
                character: Character {
                    id: c.id,
                    definition: c.definition,
                    state: s,
                    created_at: c.created_at,
                    updated_at: c.updated_at,
                },
                initialised: None,
            },
        ),
        Ok(None) => Ok(
            Loaded {
                character: Character {
                    id: c.id,
                    definition: c.definition,
                    state: CharacterState::default_at(now),
                    created_at: c.created_at,
                    updated_at: c.updated_at,
                },
                initialised: Some(CharacterStateChangedEvent { character_id: id, timestamp: now }),
            },
        ),
    }
}

impl CharacterRuntime {
    /// No character is loaded.
    pub fn new() -> (r: CharacterRuntime)
        ensures
            r.cache@ == Map::<i64, Character>::empty(),
    {
        CharacterRuntime { cache: HashMap::new() }
    }

    /// The character of a number, where it is loaded.
    pub fn get_cached(&self, id: i64) -> (r: Option<&Character>)
        ensures
            match r {
                Some(c) => self.cache@.contains_key(id) && *c == self.cache@[id],
                None => !self.cache@.contains_key(id),
            },
    {
        broadcast use vstd::std_specs::hash::group_hash_axioms;

        self.cache.get(&id)
    }

    /// Keeps a character that was loaded.
    pub fn remember(&mut self, id: i64, character: Character)
        ensures
            final(self).cache@ == old(self).cache@.insert(id, character),
    {
        broadcast use vstd::std_specs::hash::group_hash_axioms;

        self.cache.insert(id, character);
    }

    /// Gives a loaded character its new state, after it was stored. The change is
    /// handed out to be made known, whether or not the character is loaded.
    pub fn update_state(&mut self, character_id: i64, state: CharacterState, now: Timestamp) -> (r:
        CharacterStateChangedEvent)
        ensures
            final(self).cache@ == if old(self).cache@.contains_key(character_id) {
                old(self).cache@.insert(
                    character_id,
                    Character { state, ..old(self).cache@[character_id] },
                )
            } else {
                old(self).cache@
            },
            r == (CharacterStateChangedEvent { character_id, timestamp: now }),
    {
        broadcast use vstd::std_specs::hash::group_hash_axioms;

        let ghost before = self.cache@;
        match self.cache.remove(&character_id) {
            Some(c) => {
                let changed = Character {
                    id: c.id,
                    definition: c.definition,
                    state,
                    created_at: c.created_at,
                    updated_at: c.updated_at,
                };
                self.cache.insert(character_id, changed);
                assert(self.cache@ =~= before.insert(character_id, changed));
            },
            None => {
                assert(self.cache@ =~= before);
            },
        }
        CharacterStateChangedEvent { character_id, timestamp: now }
    }

    /// Forgets a character; what is stored stays.
    pub fn evict(&mut self, id: i64)
        ensures
            final(self).cache@ == old(self).cache@.remove(id),
    {
        broadcast use vstd::std_specs::hash::group_hash_axioms;

        self.cache.remove(&id);
    }

    /// The numbers of the characters that are loaded, in no particular order.
    pub fn loaded_ids(&self) -> (r: Vec<i64>)
        ensures
            r@.to_set() == self.cache@.dom(),
            r@.no_duplicates(),
    {
        broadcast use vstd::std_specs::hash::group_hash_axioms;

        let mut r: Vec<i64> = Vec::new();
        let keys = self.cache.keys();
        let ghost all = vstd::std_specs::iter::IteratorSpec::remaining(&keys).unref();
        for k in iter: keys
            invariant
                iter.seq().unref() == all,
                all.no_duplicates(),
                all.to_set() == self.cache@.dom(),
                r@ == all.take(iter.index() as int),
        {
            r.push(*k);
        }
        assert(all.take(all.len() as int) =~= all);
        r
    }

    /// How many characters are loaded.
    pub fn cache_size(&self) -> (r: usize)
        ensures
            r == self.cache@.dom().len(),
    {
        broadcast use vstd::std_specs::hash::group_hash_axioms;

        self.cache.len()
    }
}

// ---------------------------------------------------------------------------
// Patches
// ---------------------------------------------------------------------------

/// The fields with one of them set: in its place where it is there, else at the end.
pub open spec fn with_field(
    fields: Seq<(Seq<char>, JsonView)>,
    key: Seq<char>,
    value: JsonView,
) -> Seq<(Seq<char>, JsonView)> {
    let i = JsonView::key_index(fields, key, 0);
    if i < fields.len() {
        fields.update(i, (key, value))
    } else {
        fields.push((key, value))
    }
}

/// The fields with all fields of a patch set, one after the other.
pub open spec fn with_patch(
    fields: Seq<(Seq<char>, JsonView)>,
    patch: Seq<(Seq<char>, JsonView)>,
) -> Seq<(Seq<char>, JsonView)>
    decreases patch.len(),
{
    if patch.len() == 0 {
        fields
    } else {
        with_field(with_patch(fields, patch.drop_last()), patch.last().0, patch.last().1)
    }
}

/// What the fields of an object say.
pub open spec fn field_views(fields: Seq<(String, Json)>) -> Seq<(Seq<char>, JsonView)> {
    fields.map_values(|f: (String, Json)| (f.0@, f.1.model()))
}

fn set_field(fields: &mut Vec<(String, Json)>, key: &String, value: Json)
    ensures
        field_views(final(fields)@) == with_field(field_views(old(fields)@), key@, value.model()),
{
    let ghost before = field_views(fields@);
    let mut i: usize = 0;
    while i < fields.len()
        invariant
            i <= fields@.len(),
            before == field_views(fields@),
            JsonView::key_index(before, key@, i as int) == JsonView::key_index(before, key@, 0),
            fields@ == old(fields)@,
        decreases fields@.len() - i,
    {
        assert(before[i as int].0 == fields@[i as int].0@);
        if same_text(fields[i].0.as_str(), key.as_str()) {
            fields[i] = (key.clone(), value);
            assert(field_views(fields@) =~= before.update(i as int, (key@, value.model())));
            return;
        }
        i += 1;
    }
    fields.push((key.clone(), value));
    assert(field_views(fields@) =~= before.push((key@, value.model())));
}

/// Sets in a document the fields that a patch gives; a patch that is no object
/// gives none. A document that is no object cannot be patched.
pub fn merge_patch(current: Json, patch: &Json) -> (r: Result<Json, RuntimeError>)
    ensures
        match (current.model(), patch.model()) {
            (JsonView::Object(fields), JsonView::Object(changes)) => r matches Ok(doc)
                && doc.model() == JsonView::Object(with_patch(fields, changes)),
            (_, JsonView::Object(_)) => r matches Err(RuntimeError::Internal(s)) && s@
                == "状态序列化异常"@,
            _ => r matches Ok(doc) && doc.model() == current.model(),
        },
{
    match patch {
        Json::Object(changes) => match current {
            Json::Object(fields) => {
                let mut merged = fields;
                let ghost base = field_views(fields@);
                let ghost all = field_views(changes@);
                let mut i: usize = 0;
                proof {
                    assert(current.model()->Object_0 =~= base);
                    assert(patch.model()->Object_0 =~= all);
                    assert(all.take(0) =~= Seq::<(Seq<char>, JsonView)>::empty());
                }
                while i < changes.len()
                    invariant
                        i <= changes@.len(),
                        all == field_views(changes@),
                        field_views(merged@) == with_patch(base, all.take(i as int)),
                    decreases changes@.len() - i,
                {
                    proof {
                        assert(all.take(i + 1).drop_last() =~= all.take(i as int));
                        assert(all.take(i + 1).last() == (
                            changes@[i as int].0@,
                            changes@[i as int].1.model(),
                        ));
                    }
                    set_field(&mut merged, &changes[i].0, changes[i].1.duplicate());
                    i += 1;
                }
                assert(all.take(i as int) =~= all);
                let doc = Json::Object(merged);
                assert(doc.model()->Object_0 =~= field_views(merged@));
                Ok(doc)
            },
            _ => Err(RuntimeError::Internal(owned("状态序列化异常"))),
        },
        _ => Ok(current),
    }
}

/// The state after a patch: its levels bounded, changed now.
pub fn settle_patch(patched: CharacterState, now: Timestamp) -> (r: CharacterState)
    ensures
        r@ == (CharacterStateView { last_updated: now, ..patched@ }).bounded(),
{
    let mut state = patched;
    state.last_updated = now;
    state.clamped()
}

/// No field name occurs twice.
pub open spec fn distinct_keys(fields: Seq<(Seq<char>, JsonView)>) -> bool {
    forall|i: int, j: int|
        0 <= i < j < fields.len() ==> (#[trigger] fields[i]).0 != (#[trigger] fields[j]).0
}

proof fn lemma_key_index(fields: Seq<(Seq<char>, JsonView)>, key: Seq<char>, from: int)
    requires
        0 <= from <= fields.len(),
    ensures
        from <= JsonView::key_index(fields, key, from) <= fields.len(),
        forall|i: int|
            from <= i < JsonView::key_index(fields, key, from) ==> (#[trigger] fields[i]).0 != key,
        JsonView::key_index(fields, key, from) < fields.len() ==> fields[JsonView::key_index(
            fields,
            key,
            from,
        )].0 == key,
    decreases fields.len() - from,
{
    if from < fields.len() && fields[from].0 != key {
        lemma_key_index(fields, key, from + 1);
    }
}

proof fn lemma_key_index_is(fields: Seq<(Seq<char>, JsonView)>, key: Seq<char>, at: int)
    requires
        0 <= at < fields.len(),
        fields[at].0 == key,
        forall|i: int| 0 <= i < at ==> (#[trigger] fields[i]).0 != key,
    ensures
        JsonView::key_index(fields, key, 0) == at,
{
    lemma_key_index(fields, key, 0);
}

proof fn lemma_with_field(
    fields: Seq<(Seq<char>, JsonView)>,
    key: Seq<char>,
    value: JsonView,
    other: Seq<char>,
)
    ensures
        JsonView::Object(with_field(fields, key, value)).field(other) == if other == key {
            Some(value)
        } else {
            JsonView::Object(fields).field(other)
        },
{
    let after = with_field(fields, key, value);
    let at = JsonView::key_index(fields, key, 0);
    lemma_key_index(fields, key, 0);
    lemma_key_index(fields, other, 0);
    lemma_key_index(after, other, 0);
    if other == key {
        assert forall|i: int| 0 <= i < at implies (#[trigger] after[i]).0 != key by {
            assert(after[i] == fields[i]);
        }
        lemma_key_index_is(after, key, at);
    } else {
        let i = JsonView::key_index(fields, other, 0);
        if i < fields.len() {
            assert(after[i] == fields[i]);
            assert forall|j: int| 0 <= j < i implies (#[trigger] after[j]).0 != other by {
                if j != at {
                    assert(after[j] == fields[j]);
                }
            }
            lemma_key_index_is(after, other, i);
        } else {
            let k = JsonView::key_index(after, other, 0);
            if k < after.len() {
                if k != at {
                    assert(after[k] == fields[k]);
                }
                assert(false);
            }
        }
    }
}

/// A patch sets the fields that it gives and leaves all others as they are.
pub proof fn patches_set_what_they_give(
    fields: Seq<(Seq<char>, JsonView)>,
    patch: Seq<(Seq<char>, JsonView)>,
    key: Seq<char>,
)
    requires
        distinct_keys(patch),
    ensures
        JsonView::Object(with_patch(fields, patch)).field(key) == match JsonView::Object(
            patch,
        ).field(key) {
            Some(v) => Some(v),
            None => JsonView::Object(fields).field(key),
        },
    decreases patch.len(),
{
    lemma_key_index(patch, key, 0);
    if patch.len() > 0 {
        let rest = patch.drop_last();
        let last = patch.last();
        assert forall|i: int, j: int| 0 <= i < j < rest.len() implies (#[trigger] rest[i]).0 != (
        #[trigger] rest[j]).0 by {
            assert(rest[i] == patch[i] && rest[j] == patch[j]);
        }
        patches_set_what_they_give(fields, rest, key);
        lemma_with_field(with_patch(fields, rest), last.0, last.1, key);
        lemma_key_index(rest, key, 0);
        let k = JsonView::key_index(patch, key, 0);
        if key == last.0 {
            assert forall|i: int| 0 <= i < patch.len() - 1 implies (#[trigger] patch[i]).0 != key by {
                assert(patch[patch.len() - 1].0 == key);
            }
            lemma_key_index_is(patch, key, patch.len() - 1);
        } else if k < patch.len() {
            assert(rest[k] == patch[k]);
            assert forall|i: int| 0 <= i < k implies (#[trigger] rest[i]).0 != key by {
                assert(rest[i] == patch[i]);
            }
            lemma_key_index_is(rest, key, k);
        } else {
            let m = JsonView::key_index(rest, key, 0);
            if m < rest.len() {
                assert(patch[m] == rest[m]);
                assert(false);
            }
        }
    }
}

/// What is there of a character between two loads: the state that is stored, and the
/// characters in memory.
pub struct Shelf {
    pub stored: Option<CharacterStateView>,
    pub cache: Map<i64, Character>,
}

/// A load that takes its turn. It finds the character in memory; or it loads it from
/// the storage, keeps it in memory, and stores the state where that was not stored
/// yet. One that waited for its turn may load from the storage although the
/// character is in memory by then. What it gives has the values of `out`.
pub open spec fn load_turn(
    id: i64,
    character: Character,
    before: Shelf,
    out: Loaded,
    now: Timestamp,
    after: Shelf,
) -> bool {
    ||| {
        &&& before.cache.contains_key(id)
        &&& out.character == before.cache[id]
        &&& out.initialised is None
        &&& after == before
    }
    ||| exists|state: Option<CharacterState>| #[trigger]
        loads(
            id,
            Ok(Some(character)),
            Ok(state),
            now,
            Ok(out),
        ) && before.stored == (match state {
            Some(s) => Some(s@),
            None => None,
        }) && after.stored == (if out.initialised is Some {
            Some(out.character.state@)
        } else {
            before.stored
        }) && after.cache == before.cache.insert(id, out.character)
}

proof fn lemma_loads_leave_one_state(
    id: i64,
    character: Character,
    shelves: Seq<Shelf>,
    outs: Seq<Loaded>,
    times: Seq<Timestamp>,
    k: int,
)
    requires
        outs.len() == times.len(),
        shelves.len() == outs.len() + 1,
        shelves[0].stored is None,
        !shelves[0].cache.contains_key(id),
        forall|i: int|
            0 <= i < outs.len() ==> load_turn(
                id,
                character,
                shelves[i],
                #[trigger] outs[i],
                times[i],
                shelves[i + 1],
            ),
        0 <= k < outs.len(),
    ensures
        shelves[k + 1].stored == Some(CharacterStateView::fresh(times[0])),
        shelves[k + 1].cache.contains_key(id),
        shelves[k + 1].cache[id].state@ == CharacterStateView::fresh(times[0]),
        outs[k].character.state@ == CharacterStateView::fresh(times[0]),
        outs[k].initialised == if k == 0 {
            Some(CharacterStateChangedEvent { character_id: id, timestamp: times[0] })
        } else {
            None
        },
    decreases k,
{
    assert(load_turn(id, character, shelves[k], outs[k], times[k], shelves[k + 1]));
    if k > 0 {
        lemma_loads_leave_one_state(id, character, shelves, outs, times, k - 1);
    }
}

/// However often a character is loaded, its state is made once: of any number of
/// loads that take turns, on a character whose state is not stored, the first alone
/// stores the fresh state and makes it known, and all of them give that same state.
/// Afterwards the state is stored and the character in memory.
pub proof fn loading_makes_the_state_once(
    id: i64,
    character: Character,
    shelves: Seq<Shelf>,
    outs: Seq<Loaded>,
    times: Seq<Timestamp>,
)
    requires
        outs.len() > 0,
        outs.len() == times.len(),
        shelves.len() == outs.len() + 1,
        shelves[0].stored is None,
        !shelves[0].cache.contains_key(id),
        forall|i: int|
            0 <= i < outs.len() ==> load_turn(
                id,
                character,
                shelves[i],
                #[trigger] outs[i],
                times[i],
                shelves[i + 1],
            ),
    ensures
        outs[0].initialised == Some(
            CharacterStateChangedEvent { character_id: id, timestamp: times[0] },
        ),
        forall|i: int| 0 < i < outs.len() ==> (#[trigger] outs[i]).initialised is None,
        forall|i: int|
            0 <= i < outs.len() ==> (#[trigger] outs[i]).character.state@
                == CharacterStateView::fresh(times[0]),
        shelves.last().stored == Some(CharacterStateView::fresh(times[0])),
        shelves.last().cache.contains_key(id),
{
    assert forall|i: int| 0 <= i < outs.len() implies (#[trigger] outs[i]).character.state@
        == CharacterStateView::fresh(times[0]) && (outs[i].initialised is Some <==> i == 0) by {
        lemma_loads_leave_one_state(id, character, shelves, outs, times, i);
    }
    lemma_loads_leave_one_state(id, character, shelves, outs, times, 0);
    lemma_loads_leave_one_state(id, character, shelves, outs, times, outs.len() - 1);
}

/// A stored character is given as it is stored, under its stored state; one without a
/// stored state starts at an energy of 72, an attention of 50 and a stress of 10, and
/// that is made known. A character that does not exist is refused by its number.
pub proof fn characters_are_loaded_as_stored(
    id: i64,
    c: Character,
    s: CharacterState,
    now: Timestamp,
    known: Result<Loaded, RuntimeError>,
    fresh: Result<Loaded, RuntimeError>,
    missing: Result<Loaded, RuntimeError>,
    state: Result<Option<CharacterState>, RepositoryError>,
)
    requires
        call_ensures(
            load_character_unlocked,
            (
                id,
                Ok::<Option<Character>, RepositoryError>(Some(c)),
                Ok::<Option<CharacterState>, RepositoryError>(Some(s)),
                now,
            ),
            known,
        ),
        call_ensures(
            load_character_unlocked,
            (
                id,
                Ok::<Option<Character>, RepositoryError>(Some(c)),
                Ok::<Option<CharacterState>, RepositoryError>(None),
                now,
            ),
            fresh,
        ),
        call_ensures(
            load_character_unlocked,
            (id, Ok::<Option<Character>, RepositoryError>(None), state, now),
            missing,
        ),
    ensures
        known matches Ok(l) && {
            &&& l.character.id == c.id && l.character.definition == c.definition
            &&& l.character.created_at == c.created_at && l.character.updated_at == c.updated_at
            &&& l.character.state == s
            &&& l.initialised is None
        },
        fresh matches Ok(l) && {
            &&& l.character.id == c.id && l.character.definition == c.definition
            &&& l.character.state@.energy.bits == 0x4052_0000_0000_0000
            &&& l.character.state@.attention.bits == 0x4049_0000_0000_0000
            &&& l.character.state@.stress.bits == 0x4024_0000_0000_0000
            &&& l.character.state@.last_updated == now
            &&& l.initialised matches Some(e) && e.character_id == id && e.timestamp == now
        },
        missing == Err::<Loaded, RuntimeError>(
            RuntimeError::Domain(DomainError::CharacterNotFound(id)),
        ),
{
}

/// A patch of an object sets what it gives and keeps the rest; what is no object
/// cannot be patched by one, and a patch that is none changes nothing.
pub proof fn patched_documents(
    current: Json,
    patch: Json,
    r: Result<Json, RuntimeError>,
    key: Seq<char>,
)
    requires
        call_ensures(merge_patch, (current, &patch), r),
        patch.model() is Object ==> distinct_keys(patch.model()->Object_0),
    ensures
        r is Ok <==> current.model() is Object || !(patch.model() is Object),
        r is Ok && patch.model() is Object ==> r->Ok_0.model().field(key) == match patch.model().field(
            key,
        ) {
            Some(v) => Some(v),
            None => current.model().field(key),
        },
        r is Ok && !(patch.model() is Object) ==> r->Ok_0.model() == current.model(),
{
    match (current.model(), patch.model()) {
        (JsonView::Object(fields), JsonView::Object(changes)) => {
            patches_set_what_they_give(fields, changes, key);
        },
        _ => {},
    }
}

/// A patched state keeps to the bounds and was changed now.
pub proof fn patched_states_are_bounded(
    patched: CharacterState,
    now: Timestamp,
    r: CharacterState,
)
    requires
        call_ensures(settle_patch, (patched, now), r),
    ensures
        r@.last_updated == now,
        r@.energy == patched.energy.bounded(
            Scalar { bits: 0 },
            Scalar { bits: 0x4059_0000_0000_0000 },
        ),
        r@.attention == patched.attention.bounded(
            Scalar { bits: 0 },
            Scalar { bits: 0x4059_0000_0000_0000 },
        ),
        r@.stress == patched.stress.bounded(
            Scalar { bits: 0 },
            Scalar { bits: 0x4059_0000_0000_0000 },
        ),
        r@.current_activity == patched@.current_activity,
        r@.social_mood == patched@.social_mood,
        r@.last_proactive_at == patched.last_proactive_at,
{
}

/// A character that is kept is the one that is found under its number; one that is
/// forgotten is not found; a new state is given to it where it is loaded, and loads
/// nothing where it is not. Nothing of this touches another character, and the change
/// of a state is made known either way.
pub proof fn loaded_characters_are_kept_by_number(
    id: i64,
    other: i64,
    c: Character,
    s: CharacterState,
    now: Timestamp,
)
    requires
        other != id,
    ensures
        forall|k: &mut CharacterRuntime|
            #[trigger] call_ensures(CharacterRuntime::remember, (k, id, c), ()) ==> {
                &&& final(k).cache@.contains_key(id) && final(k).cache@[id] == c
                &&& same_at(k.cache@, final(k).cache@, other)
            },
        forall|k: &mut CharacterRuntime|
            #[trigger] call_ensures(CharacterRuntime::evict, (k, id), ()) ==> {
                &&& !final(k).cache@.contains_key(id)
                &&& same_at(k.cache@, final(k).cache@, other)
            },
        forall|k: &mut CharacterRuntime, e: CharacterStateChangedEvent|
            #[trigger] call_ensures(CharacterRuntime::update_state, (k, id, s, now), e) ==> {
                &&& k.cache@.contains_key(id) <==> final(k).cache@.contains_key(id)
                &&& k.cache@.contains_key(id) ==> final(k).cache@[id].state == s
                    && final(k).cache@[id].definition == k.cache@[id].definition
                    && final(k).cache@[id].id == k.cache@[id].id
                &&& same_at(k.cache@, final(k).cache@, other)
                &&& e.character_id == id && e.timestamp == now
            },
{
}

/// Both hold the same under this number, or nothing.
pub open spec fn same_at(a: Map<i64, Character>, b: Map<i64, Character>, id: i64) -> bool {
    &&& a.contains_key(id) <==> b.contains_key(id)
    &&& a.contains_key(id) ==> a[id] == b[id]
}

/// What is loaded is found, listed and counted once each.
pub proof fn loaded_characters_are_listed(
    k: CharacterRuntime,
    id: i64,
    found: Option<&Character>,
    ids: Vec<i64>,
    n: usize,
    fresh: CharacterRuntime,
)
    requires
        call_ensures(CharacterRuntime::get_cached, (&k, id), found),
        call_ensures(CharacterRuntime::loaded_ids, (&k,), ids),
        call_ensures(CharacterRuntime::cache_size, (&k,), n),
        call_ensures(CharacterRuntime::new, (), fresh),
    ensures
        found is Some <==> k.cache@.contains_key(id),
        found is Some ==> *found->0 == k.cache@[id],
        ids@.contains(id) <==> k.cache@.contains_key(id),
        ids@.len() == n,
        !fresh.cache@.contains_key(id),
{
    assert(ids@.to_set().contains(id) <==> ids@.contains(id));
    ids@.unique_seq_to_set();
}

} // verus!
