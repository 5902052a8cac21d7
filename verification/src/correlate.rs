//! The event correlator: which session an auxiliary event belongs to.
//!
//! An event belongs to the first session of the list whose interval, widened
//! on both sides by a tolerance, holds the instant of the event. The end of
//! the interval counts as inside. An event in no such interval is an orphan.

use crate::model::app_event::{AppEvent, AppEventView};
use crate::model::brightness::{BrightnessEvent, BrightnessEventView};
use crate::model::correlated::{
    CorrelatedSession, CorrelatedSessionView, OrphanEvents, OrphanEventsView,
};
use crate::model::dictionary::{DictionaryWord, DictionaryWordView};
use crate::model::session::{ReadingSession, ReadingSessionView};
use crate::reconstruct::{TimedDictionaryWord, TimedWordView};
use crate::seqs::{lemma_filter_none, lemma_filter_step, lemma_views_push, views};
use crate::time::Timestamp;
use vstd::prelude::*;

verus! {

/// The tolerance, in seconds, by which a session's interval is widened.
pub const TOLERANCE_SECONDS: u64 = 30;

/// Whether the session is complete and its interval, widened by `tolerance`
/// seconds on both sides, holds `ts`.
pub open spec fn contains(session: ReadingSessionView, ts: Timestamp, tolerance: nat) -> bool {
    match session.time_end {
        Some(end) => ts.within(session.time_start, end, tolerance),
        None => false,
    }
}

/// The place of the first session from place `from` on that contains `ts`.
pub open spec fn first_match_from(
    sessions: Seq<ReadingSessionView>,
    ts: Timestamp,
    tolerance: nat,
    from: int,
) -> Option<int>
    decreases sessions.len() - from,
{
    if from < 0 || from >= sessions.len() {
        None
    } else if contains(sessions[from], ts, tolerance) {
        Some(from)
    } else {
        first_match_from(sessions, ts, tolerance, from + 1)
    }
}

/// The place of the session that an event at `ts` belongs to: the first of the
/// list that contains `ts`. `None` for an orphan.
pub open spec fn owner(sessions: Seq<ReadingSessionView>, ts: Timestamp, tolerance: nat) -> Option<
    int,
> {
    first_match_from(sessions, ts, tolerance, 0)
}

/// What [`first_match_from`] finds is a session that contains the instant
/// and that no session between `from` and it contains; it finds none only
/// where no session from `from` on contains the instant.
pub proof fn lemma_first_match(
    sessions: Seq<ReadingSessionView>,
    ts: Timestamp,
    tolerance: nat,
    from: int,
)
    requires
        0 <= from,
    ensures
        match first_match_from(sessions, ts, tolerance, from) {
            Some(at) => {
                &&& from <= at < sessions.len()
                &&& contains(sessions[at], ts, tolerance)
                &&& forall|j: int|
                    from <= j < at ==> !contains(#[trigger] sessions[j], ts, tolerance)
            },
            None => forall|j: int|
                from <= j < sessions.len() ==> !contains(#[trigger] sessions[j], ts, tolerance),
        },
    decreases sessions.len() - from,
{
    if from < sessions.len() && !contains(sessions[from], ts, tolerance) {
        lemma_first_match(sessions, ts, tolerance, from + 1);
    }
}

/// The reading sessions of a list of correlated sessions.
pub open spec fn sessions_of(correlated: Seq<CorrelatedSession>) -> Seq<ReadingSessionView> {
    Seq::new(correlated.len(), |i: int| correlated[i].session@)
}

/// Whether the session is complete and its widened interval holds `ts`.
pub fn session_contains(session: &ReadingSession, ts: Timestamp, tolerance: u64) -> (r: bool)
    ensures
        r == contains(session@, ts, tolerance as nat),
{
    match session.time_end {
        Some(end) => ts.is_within(session.time_start, end, tolerance),
        None => false,
    }
}

/// The place of the first session that contains `ts`.
pub fn find_session_index(sessions: &Vec<CorrelatedSession>, ts: Timestamp, tolerance: u64) -> (r:
    Option<usize>)
    ensures
        match r {
            Some(at) => owner(sessions_of(sessions@), ts, tolerance as nat) == Some(at as int),
            None => owner(sessions_of(sessions@), ts, tolerance as nat) is None,
        },
        r matches Some(at) ==> at < sessions@.len(),
{
    let ghost list = sessions_of(sessions@);
    let mut i: usize = 0;
    while i < sessions.len()
        invariant
            i <= sessions@.len(),
            list == sessions_of(sessions@),
            owner(list, ts, tolerance as nat) == first_match_from(
                list,
                ts,
                tolerance as nat,
                i as int,
            ),
        decreases sessions@.len() - i,
    {
        if session_contains(&sessions[i].session, ts, tolerance) {
            return Some(i);
        }
        i += 1;
    }
    None
}

/// The test "belongs to `owner`" on timed words.
pub open spec fn word_belongs(
    sessions: Seq<ReadingSessionView>,
    tolerance: nat,
    to: Option<int>,
) -> spec_fn(TimedWordView) -> bool {
    |word: TimedWordView| owner(sessions, word.timestamp, tolerance) == to
}

/// The test "belongs to `owner`" on light events.
pub open spec fn light_belongs(
    sessions: Seq<ReadingSessionView>,
    tolerance: nat,
    to: Option<int>,
) -> spec_fn(BrightnessEventView) -> bool {
    |event: BrightnessEventView| owner(sessions, event.timestamp, tolerance) == to
}

/// The test "belongs to `owner`" on application events.
pub open spec fn app_belongs(
    sessions: Seq<ReadingSessionView>,
    tolerance: nat,
    to: Option<int>,
) -> spec_fn(AppEventView) -> bool {
    |event: AppEventView| owner(sessions, event.timestamp, tolerance) == to
}

/// The word of a lookup, marked with the session that it belongs to.
pub open spec fn stamped(session_id: Option<u128>) -> spec_fn(TimedWordView) -> DictionaryWordView {
    |word: TimedWordView|
        DictionaryWordView { term: word.word.term, lang: word.word.lang, session_id }
}

/// The identifier of the session at place `to`; none for the orphans.
pub open spec fn owner_id(sessions: Seq<ReadingSessionView>, to: Option<int>) -> Option<u128> {
    match to {
        Some(at) => Some(sessions[at].id),
        None => None,
    }
}

/// The words that belong to `to`, in the order of the lookups, each marked
/// with the identifier of its session.
pub open spec fn words_of(
    words: Seq<TimedWordView>,
    sessions: Seq<ReadingSessionView>,
    tolerance: nat,
    to: Option<int>,
) -> Seq<DictionaryWordView> {
    words.filter(word_belongs(sessions, tolerance, to)).map_values(
        stamped(owner_id(sessions, to)),
    )
}

/// The light events that belong to `to`, in their order.
pub open spec fn lights_of(
    events: Seq<BrightnessEventView>,
    sessions: Seq<ReadingSessionView>,
    tolerance: nat,
    to: Option<int>,
) -> Seq<BrightnessEventView> {
    events.filter(light_belongs(sessions, tolerance, to))
}

/// The application events that belong to `to`, in their order.
pub open spec fn apps_of(
    events: Seq<AppEventView>,
    sessions: Seq<ReadingSessionView>,
    tolerance: nat,
    to: Option<int>,
) -> Seq<AppEventView> {
    events.filter(app_belongs(sessions, tolerance, to))
}

/// The auxiliary events of a log, by kind.
pub struct AuxiliaryView {
    pub dictionary: Seq<TimedWordView>,
    pub brightness: Seq<BrightnessEventView>,
    pub natural_light: Seq<BrightnessEventView>,
    pub app_events: Seq<AppEventView>,
}

/// The session at place `at` with the events that belong to it.
pub open spec fn correlated_at(
    sessions: Seq<ReadingSessionView>,
    events: AuxiliaryView,
    tolerance: nat,
    at: int,
) -> CorrelatedSessionView {
    CorrelatedSessionView {
        session: sessions[at],
        dictionary: words_of(events.dictionary, sessions, tolerance, Some(at)),
        brightness: lights_of(events.brightness, sessions, tolerance, Some(at)),
        natural_light: lights_of(events.natural_light, sessions, tolerance, Some(at)),
        app_events: apps_of(events.app_events, sessions, tolerance, Some(at)),
    }
}

/// The sessions, each with the events that belong to it.
pub open spec fn correlated(
    sessions: Seq<ReadingSessionView>,
    events: AuxiliaryView,
    tolerance: nat,
) -> Seq<CorrelatedSessionView> {
    Seq::new(sessions.len(), |at: int| correlated_at(sessions, events, tolerance, at))
}

/// The events that belong to no session.
pub open spec fn orphaned(
    sessions: Seq<ReadingSessionView>,
    events: AuxiliaryView,
    tolerance: nat,
) -> OrphanEventsView {
    OrphanEventsView {
        dictionary: words_of(events.dictionary, sessions, tolerance, None),
        brightness: lights_of(events.brightness, sessions, tolerance, None),
        natural_light: lights_of(events.natural_light, sessions, tolerance, None),
        app_events: apps_of(events.app_events, sessions, tolerance, None),
    }
}

/// Handing out one light event more appends it where it belongs.
proof fn lemma_lights_step(
    events: Seq<BrightnessEventView>,
    sessions: Seq<ReadingSessionView>,
    tolerance: nat,
    to: Option<int>,
    k: int,
)
    requires
        0 <= k < events.len(),
    ensures
        lights_of(events.take(k + 1), sessions, tolerance, to) == if owner(
            sessions,
            events[k].timestamp,
            tolerance,
        ) == to {
            lights_of(events.take(k), sessions, tolerance, to).push(events[k])
        } else {
            lights_of(events.take(k), sessions, tolerance, to)
        },
{
    lemma_filter_step(events, light_belongs(sessions, tolerance, to), k);
}

/// No light events are handed out of none.
proof fn lemma_lights_none(
    events: Seq<BrightnessEventView>,
    sessions: Seq<ReadingSessionView>,
    tolerance: nat,
    to: Option<int>,
)
    requires
        events.len() == 0,
    ensures
        lights_of(events, sessions, tolerance, to) == Seq::<BrightnessEventView>::empty(),
{
    lemma_filter_none(events, light_belongs(sessions, tolerance, to));
}

/// Handing out one application event more appends it where it belongs.
proof fn lemma_apps_step(
    events: Seq<AppEventView>,
    sessions: Seq<ReadingSessionView>,
    tolerance: nat,
    to: Option<int>,
    k: int,
)
    requires
        0 <= k < events.len(),
    ensures
        apps_of(events.take(k + 1), sessions, tolerance, to) == if owner(
            sessions,
            events[k].timestamp,
            tolerance,
        ) == to {
            apps_of(events.take(k), sessions, tolerance, to).push(events[k])
        } else {
            apps_of(events.take(k), sessions, tolerance, to)
        },
{
    lemma_filter_step(events, app_belongs(sessions, tolerance, to), k);
}

/// No application events are handed out of none.
proof fn lemma_apps_none(
    events: Seq<AppEventView>,
    sessions: Seq<ReadingSessionView>,
    tolerance: nat,
    to: Option<int>,
)
    requires
        events.len() == 0,
    ensures
        apps_of(events, sessions, tolerance, to) == Seq::<AppEventView>::empty(),
{
    lemma_filter_none(events, app_belongs(sessions, tolerance, to));
}

/// The sessions `after` are the sessions `before` with, in place of their
/// brightness events, those of `events` that belong to each.
spec fn brightness_assigned(
    after: Seq<CorrelatedSession>,
    before: Seq<CorrelatedSession>,
    events: Seq<BrightnessEventView>,
    tolerance: nat,
) -> bool {
    &&& after.len() == before.len()
    &&& sessions_of(after) == sessions_of(before)
    &&& forall|i: int|
        0 <= i < before.len() ==> (#[trigger] after[i])@ == (CorrelatedSessionView {
            brightness: lights_of(events, sessions_of(before), tolerance, Some(i)),
            ..before[i]@
        })
}

/// Hands each brightness event to the session that it belongs to, and returns
/// those that belong to none. The sessions must not hold any yet.
fn assign_brightness(
    sessions: &mut Vec<CorrelatedSession>,
    events: &Vec<BrightnessEvent>,
    tolerance: u64,
) -> (orphans: Vec<BrightnessEvent>)
    requires
        forall|i: int|
            0 <= i < old(sessions)@.len() ==> (#[trigger] old(sessions)@[i])@.brightness.len() == 0,
    ensures
        brightness_assigned(final(sessions)@, old(sessions)@, views(events@), tolerance as nat),
        views(orphans@) == lights_of(
            views(events@),
            sessions_of(old(sessions)@),
            tolerance as nat,
            None,
        ),
{
    let ghost base = sessions_of(sessions@);
    let ghost before = sessions@;
    let ghost all = views(events@);
    let ghost reach = tolerance as nat;
    let mut orphans: Vec<BrightnessEvent> = Vec::new();
    let mut k: usize = 0;
    proof {
        lemma_lights_none(all.take(0), base, reach, None);
        assert forall|i: int| 0 <= i < before.len() implies (#[trigger] sessions@[i])@ == (
        CorrelatedSessionView {
            brightness: lights_of(all.take(0), base, reach, Some(i)),
            ..before[i]@
        }) by {
            lemma_lights_none(all.take(0), base, reach, Some(i));
            assert(views(sessions@[i].brightness@) =~= Seq::empty());
        }
    }
    while k < events.len()
        invariant
            k <= events@.len(),
            all == views(events@),
            reach == tolerance as nat,
            base == sessions_of(before),
            brightness_assigned(sessions@, before, all.take(k as int), reach),
            views(orphans@) == lights_of(all.take(k as int), base, reach, None),
        decreases events@.len() - k,
    {
        let event = events[k].clone();
        proof {
            lemma_lights_step(all, base, reach, None, k as int);
        }
        match find_session_index(sessions, event.timestamp, tolerance) {
            Some(at) => {
                proof {
                    lemma_views_push(sessions@[at as int].brightness@, event);
                }
                sessions[at].brightness.push(event);
                assert(sessions_of(sessions@) =~= base);
            },
            None => {
                proof {
                    lemma_views_push(orphans@, event);
                }
                orphans.push(event);
            },
        }
        assert forall|i: int| 0 <= i < before.len() implies (#[trigger] sessions@[i])@ == (
        CorrelatedSessionView {
            brightness: lights_of(all.take(k + 1), base, reach, Some(i)),
            ..before[i]@
        }) by {
            lemma_lights_step(all, base, reach, Some(i), k as int);
        }
        k += 1;
    }
    proof {
        assert(all.take(k as int) =~= all);
    }
    orphans
}

/// The sessions `after` are the sessions `before` with, in place of their
/// natural-light events, those of `events` that belong to each.
spec fn natural_light_assigned(
    after: Seq<CorrelatedSession>,
    before: Seq<CorrelatedSession>,
    events: Seq<BrightnessEventView>,
    tolerance: nat,
) -> bool {
    &&& after.len() == before.len()
    &&& sessions_of(after) == sessions_of(before)
    &&& forall|i: int|
        0 <= i < before.len() ==> (#[trigger] after[i])@ == (CorrelatedSessionView {
            natural_light: lights_of(events, sessions_of(before), tolerance, Some(i)),
            ..before[i]@
        })
}

/// Hands each natural-light event to the session that it belongs to, and returns
/// those that belong to none. The sessions must not hold any yet.
fn assign_natural_light(
    sessions: &mut Vec<CorrelatedSession>,
    events: &Vec<BrightnessEvent>,
    tolerance: u64,
) -> (orphans: Vec<BrightnessEvent>)
    requires
        forall|i: int|
            0 <= i < old(sessions)@.len() ==> (#[trigger] old(sessions)@[i])@.natural_light.len()
                == 0,
    ensures
        natural_light_assigned(final(sessions)@, old(sessions)@, views(events@), tolerance as nat),
        views(orphans@) == lights_of(
            views(events@),
            sessions_of(old(sessions)@),
            tolerance as nat,
            None,
        ),
{
    let ghost base = sessions_of(sessions@);
    let ghost before = sessions@;
    let ghost all = views(events@);
    let ghost reach = tolerance as nat;
    let mut orphans: Vec<BrightnessEvent> = Vec::new();
    let mut k: usize = 0;
    proof {
        lemma_lights_none(all.take(0), base, reach, None);
        assert forall|i: int| 0 <= i < before.len() implies (#[trigger] sessions@[i])@ == (
        CorrelatedSessionView {
            natural_light: lights_of(all.take(0), base, reach, Some(i)),
            ..before[i]@
        }) by {
            lemma_lights_none(all.take(0), base, reach, Some(i));
            assert(views(sessions@[i].natural_light@) =~= Seq::empty());
        }
    }
    while k < events.len()
        invariant
            k <= events@.len(),
            all == views(events@),
            reach == tolerance as nat,
            base == sessions_of(before),
            natural_light_assigned(sessions@, before, all.take(k as int), reach),
            views(orphans@) == lights_of(all.take(k as int), base, reach, None),
        decreases events@.len() - k,
    {
        let event = events[k].clone();
        proof {
            lemma_lights_step(all, base, reach, None, k as int);
        }
        match find_session_index(sessions, event.timestamp, tolerance) {
            Some(at) => {
                proof {
                    lemma_views_push(sessions@[at as int].natural_light@, event);
                }
                sessions[at].natural_light.push(event);
                assert(sessions_of(sessions@) =~= base);
            },
            None => {
                proof {
                    lemma_views_push(orphans@, event);
                }
                orphans.push(event);
            },
        }
        assert forall|i: int| 0 <= i < before.len() implies (#[trigger] sessions@[i])@ == (
        CorrelatedSessionView {
            natural_light: lights_of(all.take(k + 1), base, reach, Some(i)),
            ..before[i]@
        }) by {
            lemma_lights_step(all, base, reach, Some(i), k as int);
        }
        k += 1;
    }
    proof {
        assert(all.take(k as int) =~= all);
    }
    orphans
}

/// The sessions `after` are the sessions `before` with, in place of their
/// application events, those of `events` that belong to each.
spec fn app_events_assigned(
    after: Seq<CorrelatedSession>,
    before: Seq<CorrelatedSession>,
    events: Seq<AppEventView>,
    tolerance: nat,
) -> bool {
    &&& after.len() == before.len()
    &&& sessions_of(after) == sessions_of(before)
    &&& forall|i: int|
        0 <= i < before.len() ==> (#[trigger] after[i])@ == (CorrelatedSessionView {
            app_events: apps_of(events, sessions_of(before), tolerance, Some(i)),
            ..before[i]@
        })
}

/// Hands each application event to the session that it belongs to, and returns
/// those that belong to none. The sessions must not hold any yet.
fn assign_app_events(
    sessions: &mut Vec<CorrelatedSession>,
    events: &Vec<AppEvent>,
    tolerance: u64,
) -> (orphans: Vec<AppEvent>)
    requires
        forall|i: int|
            0 <= i < old(sessions)@.len() ==> (#[trigger] old(sessions)@[i])@.app_events.len() == 0,
    ensures
        app_events_assigned(final(sessions)@, old(sessions)@, views(events@), tolerance as nat),
        views(orphans@) == apps_of(
            views(events@),
            sessions_of(old(sessions)@),
            tolerance as nat,
            None,
        ),
{
    let ghost base = sessions_of(sessions@);
    let ghost before = sessions@;
    let ghost all = views(events@);
    let ghost reach = tolerance as nat;
    let mut orphans: Vec<AppEvent> = Vec::new();
    let mut k: usize = 0;
    proof {
        lemma_apps_none(all.take(0), base, reach, None);
        assert forall|i: int| 0 <= i < before.len() implies (#[trigger] sessions@[i])@ == (
        CorrelatedSessionView {
            app_events: apps_of(all.take(0), base, reach, Some(i)),
            ..before[i]@
        }) by {
            lemma_apps_none(all.take(0), base, reach, Some(i));
            assert(views(sessions@[i].app_events@) =~= Seq::empty());
        }
    }
    while k < events.len()
        invariant
            k <= events@.len(),
            all == views(events@),
            reach == tolerance as nat,
            base == sessions_of(before),
            app_events_assigned(sessions@, before, all.take(k as int), reach),
            views(orphans@) == apps_of(all.take(k as int), base, reach, None),
        decreases events@.len() - k,
    {
        let event = events[k].clone();
        proof {
            lemma_apps_step(all, base, reach, None, k as int);
        }
        match find_session_index(sessions, event.timestamp, tolerance) {
            Some(at) => {
                proof {
                    lemma_views_push(sessions@[at as int].app_events@, event);
                }
                sessions[at].app_events.push(event);
                assert(sessions_of(sessions@) =~= base);
            },
            None => {
                proof {
                    lemma_views_push(orphans@, event);
                }
                orphans.push(event);
            },
        }
        assert forall|i: int| 0 <= i < before.len() implies (#[trigger] sessions@[i])@ == (
        CorrelatedSessionView {
            app_events: apps_of(all.take(k + 1), base, reach, Some(i)),
            ..before[i]@
        }) by {
            lemma_apps_step(all, base, reach, Some(i), k as int);
        }
        k += 1;
    }
    proof {
        assert(all.take(k as int) =~= all);
    }
    orphans
}

/// Marking one word more marks that word at the end.
proof fn lemma_words_step(
    words: Seq<TimedWordView>,
    sessions: Seq<ReadingSessionView>,
    tolerance: nat,
    to: Option<int>,
    k: int,
)
    requires
        0 <= k < words.len(),
    ensures
        words_of(words.take(k + 1), sessions, tolerance, to) == if owner(
            sessions,
            words[k].timestamp,
            tolerance,
        ) == to {
            words_of(words.take(k), sessions, tolerance, to).push(
                stamped(owner_id(sessions, to))(words[k]),
            )
        } else {
            words_of(words.take(k), sessions, tolerance, to)
        },
{
    let keep = word_belongs(sessions, tolerance, to);
    let mark = stamped(owner_id(sessions, to));
    lemma_filter_step(words, keep, k);
    let kept = words.take(k).filter(keep);
    assert(kept.push(words[k]).map_values(mark) =~= kept.map_values(mark).push(mark(words[k])));
}

/// No words are marked of no lookups.
proof fn lemma_words_none(
    words: Seq<TimedWordView>,
    sessions: Seq<ReadingSessionView>,
    tolerance: nat,
    to: Option<int>,
)
    requires
        words.len() == 0,
    ensures
        words_of(words, sessions, tolerance, to) == Seq::<DictionaryWordView>::empty(),
{
    lemma_filter_none(words, word_belongs(sessions, tolerance, to));
}

/// The sessions `after` are the sessions `before` with, in place of their
/// words, those of `lookups` that belong to each.
spec fn words_assigned(
    after: Seq<CorrelatedSession>,
    before: Seq<CorrelatedSession>,
    lookups: Seq<TimedWordView>,
    tolerance: nat,
) -> bool {
    &&& after.len() == before.len()
    &&& sessions_of(after) == sessions_of(before)
    &&& forall|i: int|
        0 <= i < before.len() ==> (#[trigger] after[i])@ == (CorrelatedSessionView {
            dictionary: words_of(lookups, sessions_of(before), tolerance, Some(i)),
            ..before[i]@
        })
}

/// Hands each looked-up word to the session that it belongs to, marked with
/// the identifier of that session, and returns those that belong to none,
/// marked with no session. The sessions must not hold any yet.
fn assign_dictionary(
    sessions: &mut Vec<CorrelatedSession>,
    words: &Vec<TimedDictionaryWord>,
    tolerance: u64,
) -> (orphans: Vec<DictionaryWord>)
    requires
        forall|i: int|
            0 <= i < old(sessions)@.len() ==> (#[trigger] old(sessions)@[i])@.dictionary.len() == 0,
    ensures
        words_assigned(final(sessions)@, old(sessions)@, views(words@), tolerance as nat),
        views(orphans@) == words_of(
            views(words@),
            sessions_of(old(sessions)@),
            tolerance as nat,
            None,
        ),
{
    let ghost base = sessions_of(sessions@);
    let ghost before = sessions@;
    let ghost all = views(words@);
    let ghost reach = tolerance as nat;
    let mut orphans: Vec<DictionaryWord> = Vec::new();
    let mut k: usize = 0;
    proof {
        lemma_words_none(all.take(0), base, reach, None);
        assert forall|i: int| 0 <= i < before.len() implies (#[trigger] sessions@[i])@ == (
        CorrelatedSessionView {
            dictionary: words_of(all.take(0), base, reach, Some(i)),
            ..before[i]@
        }) by {
            lemma_words_none(all.take(0), base, reach, Some(i));
            assert(views(sessions@[i].dictionary@) =~= Seq::empty());
        }
    }
    while k < words.len()
        invariant
            k <= words@.len(),
            all == views(words@),
            reach == tolerance as nat,
            base == sessions_of(before),
            words_assigned(sessions@, before, all.take(k as int), reach),
            views(orphans@) == words_of(all.take(k as int), base, reach, None),
        decreases words@.len() - k,
    {
        let lookup = &words[k];
        proof {
            lemma_words_step(all, base, reach, None, k as int);
        }
        match find_session_index(sessions, lookup.timestamp, tolerance) {
            Some(at) => {
                let session_id = sessions[at].session.id;
                let word = DictionaryWord::new(
                    lookup.word.term().to_owned(),
                    lookup.word.lang().to_owned(),
                    Some(session_id),
                );
                proof {
                    lemma_views_push(sessions@[at as int].dictionary@, word);
                }
                sessions[at].dictionary.push(word);
                assert(sessions_of(sessions@) =~= base);
            },
            None => {
                let word = DictionaryWord::new(
                    lookup.word.term().to_owned(),
                    lookup.word.lang().to_owned(),
                    None,
                );
                proof {
                    lemma_views_push(orphans@, word);
                }
                orphans.push(word);
            },
        }
        assert forall|i: int| 0 <= i < before.len() implies (#[trigger] sessions@[i])@ == (
        CorrelatedSessionView {
            dictionary: words_of(all.take(k + 1), base, reach, Some(i)),
            ..before[i]@
        }) by {
            lemma_words_step(all, base, reach, Some(i), k as int);
        }
        k += 1;
    }
    proof {
        assert(all.take(k as int) =~= all);
    }
    orphans
}

/// The auxiliary events that a scan has found, as the correlator takes them.
pub open spec fn auxiliary(
    dictionary: Seq<TimedDictionaryWord>,
    brightness: Seq<BrightnessEvent>,
    natural_light: Seq<BrightnessEvent>,
    app_events: Seq<AppEvent>,
) -> AuxiliaryView {
    AuxiliaryView {
        dictionary: views(dictionary),
        brightness: views(brightness),
        natural_light: views(natural_light),
        app_events: views(app_events),
    }
}

/// Attaches the auxiliary events of a log to its sessions: each event to the
/// first session whose interval, widened by `tolerance` seconds, holds its
/// instant, or to the orphans.
pub fn correlate(
    sessions: Vec<ReadingSession>,
    dictionary: &Vec<TimedDictionaryWord>,
    brightness: &Vec<BrightnessEvent>,
    natural_light: &Vec<BrightnessEvent>,
    app_events: &Vec<AppEvent>,
    tolerance: u64,
) -> (r: (Vec<CorrelatedSession>, OrphanEvents))
    ensures
        views(r.0@) == correlated(
            views(sessions@),
            auxiliary(dictionary@, brightness@, natural_light@, app_events@),
            tolerance as nat,
        ),
        r.1@ == orphaned(
            views(sessions@),
            auxiliary(dictionary@, brightness@, natural_light@, app_events@),
            tolerance as nat,
        ),
{
    let ghost list = views(sessions@);
    let mut found: Vec<CorrelatedSession> = Vec::new();
    for session in source: sessions.into_iter()
        invariant
            source.seq() == sessions@,
            found@.len() == source.index(),
            forall|i: int|
                0 <= i < found@.len() ==> (#[trigger] found@[i])@ == CorrelatedSessionView::bare(
                    sessions@[i]@,
                ),
    {
        found.push(CorrelatedSession::new(session));
    }
    assert(sessions_of(found@) =~= list);
    let orphan_dictionary = assign_dictionary(&mut found, dictionary, tolerance);
    let orphan_brightness = assign_brightness(&mut found, brightness, tolerance);
    let orphan_natural_light = assign_natural_light(&mut found, natural_light, tolerance);
    let orphan_app_events = assign_app_events(&mut found, app_events, tolerance);
    let orphans = OrphanEvents {
        dictionary: orphan_dictionary,
        brightness: orphan_brightness,
        natural_light: orphan_natural_light,
        app_events: orphan_app_events,
    };
    (found, orphans)
}

} // verus!
