//! How messages lift the mood.

use vstd::prelude::*;

use crate::domain::character::{clamp_percent, percent};
use crate::domain::emotion::Mood;
use crate::error::{RepositoryError, RuntimeError};
use crate::scalar::{Scalar, TWO};
use crate::time::Timestamp;

verus! {

/// The mood in a conversation, and whether it must be stored because it was not yet.
pub fn load(found: Result<Option<Mood>, RepositoryError>, now: Timestamp) -> (r: Result<
    (Mood, bool),
    RuntimeError,
>)
    ensures
        r == (match found {
            Err(e) => Err::<(Mood, bool), RuntimeError>(RuntimeError::Repository(e)),
            Ok(Some(mood)) => Ok((mood, false)),
            Ok(None) => Ok((Mood::fresh(now), true)),
        }),
{
    match found {
        Err(e) => Err(RuntimeError::Repository(e)),
        Ok(Some(mood)) => Ok((mood, false)),
        Ok(None) => Ok((Mood::default_at(now), true)),
    }
}

/// The mood after a message: bounded, lifted by two, bounded again. `sum` adds two
/// numbers.
pub fn apply_message_event<F: Fn(Scalar, Scalar) -> Scalar>(mood: Mood, sum: &F, now: Timestamp) -> (r:
    Mood)
    requires
        forall|x: Scalar, y: Scalar| call_requires(*sum, (x, y)),
    ensures
        r.last_updated == now,
        exists|x: Scalar|
            #[trigger] call_ensures(*sum, (percent(mood.value), Scalar { bits: TWO }), x) && r.value
                == percent(x),
{
    let lifted = sum(mood.clamped().value, Scalar { bits: TWO });
    Mood { value: clamp_percent(lifted), last_updated: now }
}

/// A message lifts the mood by two, within 0 and 100.
pub proof fn messages_lift_the_mood<F: Fn(Scalar, Scalar) -> Scalar>(
    mood: Mood,
    sum: F,
    now: Timestamp,
    r: Mood,
)
    requires
        call_ensures(apply_message_event::<F>, (mood, &sum, now), r),
        crate::scalar::within(
            mood.value,
            Scalar { bits: 0 },
            Scalar { bits: 0x4059_0000_0000_0000 },
        ),
    ensures
        r.last_updated == now,
        exists|x: Scalar|
            #[trigger] call_ensures(sum, (mood.value, Scalar { bits: 0x4000_0000_0000_0000 }), x)
                && r.value == x.bounded(
                Scalar { bits: 0 },
                Scalar { bits: 0x4059_0000_0000_0000 },
            ),
{
}

/// A mood that was found is taken as it is; one that was not is a fresh one, and must
/// be stored.
pub proof fn moods_are_found_or_fresh(
    mood: Mood,
    now: Timestamp,
    found: Result<(Mood, bool), RuntimeError>,
    missed: Result<(Mood, bool), RuntimeError>,
)
    requires
        call_ensures(load, (Ok::<Option<Mood>, RepositoryError>(Some(mood)), now), found),
        call_ensures(load, (Ok::<Option<Mood>, RepositoryError>(None), now), missed),
    ensures
        found == Ok::<(Mood, bool), RuntimeError>((mood, false)),
        missed matches Ok((m, new)) && new && m.value.bits == 0x4049_0000_0000_0000
            && m.last_updated == now,
{
}

} // verus!
