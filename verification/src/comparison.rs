//! Whether a reference recording can be compared lap by lap with the main
//! recording: both must come from the same track and configuration.
use vstd::prelude::*;
use crate::text::{ascii_lower, ascii_lowercase_chars, chars_of, str_trim, trim};

verus! {

/// What a recording says of where and with what it was driven.
#[derive(Debug, Clone, PartialEq, Eq)]
pub struct RecordingIdentity {
    pub track_name: String,
    pub track_id: Option<i32>,
    pub track_config_name: Option<String>,
    pub car_id: Option<i32>,
    pub car_name: Option<String>,
}

/// `s` with ASCII letters lowered.
pub open spec fn folded(s: Seq<char>) -> Seq<char> {
    s.map_values(|c: char| ascii_lower(c))
}

/// Whether two texts are equal when ASCII case is ignored (`eq_ignore_ascii_case`).
pub open spec fn same_ignoring_case(a: Seq<char>, b: Seq<char>) -> bool {
    folded(a) == folded(b)
}

/// `str::eq_ignore_ascii_case`, which compares two texts with ASCII letters
/// lowered.
pub fn eq_ignore_ascii_case(a: &str, b: &str) -> (r: bool)
    ensures
        r == same_ignoring_case(a@, b@),
{
    let la = ascii_lowercase_chars(&chars_of(a));
    let lb = ascii_lowercase_chars(&chars_of(b));
    if la.len() != lb.len() {
        assert(folded(a@).len() != folded(b@).len());
        return false;
    }
    let mut i: usize = 0;
    while i < la.len()
        invariant
            i <= la@.len(),
            la@.len() == lb@.len(),
            la@ == folded(a@),
            lb@ == folded(b@),
            la@.take(i as int) == lb@.take(i as int),
        decreases la@.len() - i,
    {
        if la[i] != lb[i] {
            assert(la@[i as int] != lb@[i as int]);
            return false;
        }
        assert(la@.take(i + 1) =~= la@.take(i as int).push(la@[i as int]));
        assert(lb@.take(i + 1) =~= lb@.take(i as int).push(lb@[i as int]));
        i = i + 1;
    }
    assert(la@.take(i as int) =~= la@);
    assert(lb@.take(i as int) =~= lb@);
    true
}

/// Whether two recordings come from the same track: the same track id when
/// both have one, otherwise the same name; and the same configuration when
/// both name one.
pub open spec fn same_track(main: RecordingIdentity, other: RecordingIdentity) -> bool {
    let track_matches = match (main.track_id, other.track_id) {
        (Some(a), Some(b)) => a == b,
        _ => same_ignoring_case(trim(main.track_name@), trim(other.track_name@)),
    };
    let config_matches = match (main.track_config_name, other.track_config_name) {
        (Some(a), Some(b)) => same_ignoring_case(trim(a@), trim(b@)),
        _ => true,
    };
    track_matches && config_matches
}

/// Whether two recordings were driven in different cars: different car ids
/// when both have one, otherwise different names when both name one.
pub open spec fn different_cars(main: RecordingIdentity, other: RecordingIdentity) -> bool {
    match (main.car_id, other.car_id) {
        (Some(a), Some(b)) => a != b,
        _ => match (main.car_name, other.car_name) {
            (Some(a), Some(b)) => !same_ignoring_case(a@, b@),
            _ => false,
        },
    }
}

/// Whether the laps of `reference` can be compared with those of `session`:
/// both are recordings of the same track.
pub fn tracks_are_compatible(session: Option<&RecordingIdentity>, reference: Option<&RecordingIdentity>) -> (r: bool)
    ensures
        r == match (session, reference) {
            (Some(main), Some(other)) => same_track(*main, *other),
            _ => false,
        },
{
    let (main, other) = match (session, reference) {
        (Some(main), Some(other)) => (main, other),
        _ => {
            return false;
        },
    };
    let track_matches = match (main.track_id, other.track_id) {
        (Some(a), Some(b)) => a == b,
        _ => eq_ignore_ascii_case(str_trim(main.track_name.as_str()), str_trim(other.track_name.as_str())),
    };
    let config_matches = match (&main.track_config_name, &other.track_config_name) {
        (Some(a), Some(b)) => eq_ignore_ascii_case(str_trim(a.as_str()), str_trim(b.as_str())),
        _ => true,
    };
    track_matches && config_matches
}

/// Whether the two recordings were driven in different cars.
pub fn cars_are_different(session: Option<&RecordingIdentity>, reference: Option<&RecordingIdentity>) -> (r: bool)
    ensures
        r == match (session, reference) {
            (Some(main), Some(other)) => different_cars(*main, *other),
            _ => false,
        },
{
    let (main, other) = match (session, reference) {
        (Some(main), Some(other)) => (main, other),
        _ => {
            return false;
        },
    };
    match (main.car_id, other.car_id) {
        (Some(a), Some(b)) => a != b,
        _ => match (&main.car_name, &other.car_name) {
            (Some(a), Some(b)) => !eq_ignore_ascii_case(a.as_str(), b.as_str()),
            _ => false,
        },
    }
}

/// Why the reference laps cannot be compared, if they cannot.
pub fn comparison_issue(session: Option<&RecordingIdentity>, reference: Option<&RecordingIdentity>) -> (r: Option<&'static str>)
    ensures
        session is None ==> r == Some("Main IBT required"),
        session is Some && reference is None ==> r == Some("Reference IBT unavailable"),
        session is Some && reference is Some ==> r == (if same_track(*session.unwrap(), *reference.unwrap()) {
            None
        } else {
            Some("Track mismatch")
        }),
{
    if session.is_none() {
        Some("Main IBT required")
    } else if reference.is_none() {
        Some("Reference IBT unavailable")
    } else if !tracks_are_compatible(session, reference) {
        Some("Track mismatch")
    } else {
        None
    }
}

/// Comparing is symmetric: two recordings come from the same track, or were
/// driven in different cars, whichever of them is the main one.
pub proof fn lemma_comparison_is_symmetric(a: RecordingIdentity, b: RecordingIdentity)
    ensures
        same_track(a, b) == same_track(b, a),
        different_cars(a, b) == different_cars(b, a),
{
}

/// A recording can always be compared with itself, and was driven in the
/// same car as itself.
pub proof fn lemma_recording_matches_itself(a: RecordingIdentity)
    ensures
        same_track(a, a),
        !different_cars(a, a),
{
}

} // verus!
