//! The charge cycle segmenter and the cycle metrics.
//!
//! The instants at which the device was plugged in, put in ascending order,
//! cut the time line into cycles: each runs from one plugging-in up to, but
//! not including, the next, and the last has no end. A session belongs to the
//! cycle in which it starts; an application event to the cycle of its instant.

use crate::model::app_event::{AppEvent, AppEventKind, AppEventView};
use crate::model::correlated::{
    ChargeCycle, ChargeCycleMetrics, ChargeCycleView, CorrelatedSession, CorrelatedSessionView,
};
use crate::model::session::ReadingSession;
use crate::seqs::{lemma_filter_none, lemma_filter_step, lemma_views_push, views};
use crate::time::Timestamp;
use vstd::prelude::*;
use vstd::relations::{sorted_by, total_ordering};
use vstd::seq_lib::lemma_sorted_unique;

verus! {

/// The order of instants as a relation: `a` is at or before `b`.
pub open spec fn earliest_first() -> spec_fn(Timestamp, Timestamp) -> bool {
    |a: Timestamp, b: Timestamp| a.at_or_before(b)
}

/// The order of instants is total: two instants that are each at or before
/// the other are the same instant.
pub proof fn lemma_instants_totally_ordered()
    ensures
        total_ordering(earliest_first()),
{
    let leq = earliest_first();
    assert forall|x: Timestamp, y: Timestamp| #[trigger] leq(x, y) && #[trigger] leq(y, x) implies x
        == y by {
        assert(x.seconds == y.seconds && x.nanos == y.nanos);
    }
}

/// The test "is a plugging-in" on application events.
pub open spec fn is_plug() -> spec_fn(AppEventView) -> bool {
    |event: AppEventView| event.kind == AppEventKind::PluggedIn
}

/// The test "is a start of the application" on application events.
pub open spec fn is_app_start() -> spec_fn(AppEventView) -> bool {
    |event: AppEventView| event.kind == AppEventKind::AppStart
}

/// The instant of an application event.
pub open spec fn instant_of() -> spec_fn(AppEventView) -> Timestamp {
    |event: AppEventView| event.timestamp
}

/// The instants at which the device was plugged in, in the order of the
/// events.
pub open spec fn plug_instants(events: Seq<AppEventView>) -> Seq<Timestamp> {
    events.filter(is_plug()).map_values(instant_of())
}

/// The instants at which the device was plugged in, earliest first.
pub open spec fn plug_times(events: Seq<AppEventView>) -> Seq<Timestamp> {
    plug_instants(events).sort_by(earliest_first())
}

/// Puts instants in ascending order.
pub fn sort_instants(instants: &Vec<Timestamp>) -> (r: Vec<Timestamp>)
    ensures
        r@ == instants@.sort_by(earliest_first()),
        sorted_by(r@, earliest_first()),
        r@.to_multiset() == instants@.to_multiset(),
        r@.len() == instants@.len(),
{
    broadcast use vstd::seq_lib::group_to_multiset_ensures;

    let ghost leq = earliest_first();
    let mut sorted: Vec<Timestamp> = Vec::new();
    let mut k: usize = 0;
    assert(instants@.take(0) =~= Seq::<Timestamp>::empty());
    while k < instants.len()
        invariant
            k <= instants@.len(),
            leq == earliest_first(),
            sorted_by(sorted@, leq),
            sorted@.to_multiset() == instants@.take(k as int).to_multiset(),
            sorted@.len() == k,
        decreases instants@.len() - k,
    {
        let next = instants[k];
        let mut at: usize = 0;
        while at < sorted.len() && sorted[at].is_at_or_before(next)
            invariant
                at <= sorted@.len(),
                forall|j: int| 0 <= j < at ==> (#[trigger] sorted@[j]).at_or_before(next),
            decreases sorted@.len() - at,
        {
            at += 1;
        }
        let ghost before = sorted@;
        sorted.insert(at, next);
        proof {
            assert(instants@.take(k + 1) =~= instants@.take(k as int).push(next));
            vstd::seq_lib::to_multiset_build(instants@.take(k as int), next);
            vstd::seq_lib::to_multiset_insert(before, at as int, next);
            assert forall|i: int, j: int| 0 <= i < j < sorted@.len() implies #[trigger] leq(
                sorted@[i],
                sorted@[j],
            ) by {
                if j < at {
                    assert(leq(before[i], before[j]));
                } else if j == at {
                    assert(before[i].at_or_before(next));
                } else if i == at {
                    assert(!before[at as int].at_or_before(next));
                    assert(leq(before[at as int], before[j - 1]) || at as int == j - 1);
                } else if i < at {
                    assert(leq(before[i], before[j - 1]));
                } else {
                    assert(leq(before[i - 1], before[j - 1]));
                }
            }
        }
        k += 1;
    }
    proof {
        assert(instants@.take(k as int) =~= instants@);
        lemma_instants_totally_ordered();
        instants@.lemma_sort_by_ensures(leq);
        lemma_sorted_unique(sorted@, instants@.sort_by(leq), leq);
    }
    sorted
}

/// The instants at which the device was plugged in, earliest first.
pub fn plug_timestamps(app_events: &Vec<AppEvent>) -> (r: Vec<Timestamp>)
    ensures
        r@ == plug_times(views(app_events@)),
        r@.len() <= app_events@.len(),
{
    let ghost all = views(app_events@);
    let mut plugs: Vec<Timestamp> = Vec::new();
    let mut k: usize = 0;
    proof {
        lemma_filter_none(all.take(0), is_plug());
    }
    while k < app_events.len()
        invariant
            k <= app_events@.len(),
            all == views(app_events@),
            plugs@ == plug_instants(all.take(k as int)),
            plugs@.len() <= k,
        decreases app_events@.len() - k,
    {
        let event = &app_events[k];
        proof {
            lemma_filter_step(all, is_plug(), k as int);
        }
        if matches!(event.kind, AppEventKind::PluggedIn) {
            plugs.push(event.timestamp);
        }
        k += 1;
    }
    proof {
        assert(all.take(k as int) =~= all);
    }
    sort_instants(&plugs)
}

/// Whether the session starts in the cycle from `start` to `end`.
pub fn session_in_cycle(session: &ReadingSession, start: Timestamp, end: Option<Timestamp>) -> (r:
    bool)
    ensures
        r == session@.time_start.in_span(start, end),
{
    session.time_start.is_in_span(start, end)
}

/// Whether the application event happened in the cycle from `start` to `end`.
pub fn app_event_in_cycle(event: &AppEvent, start: Timestamp, end: Option<Timestamp>) -> (r: bool)
    ensures
        r == event@.timestamp.in_span(start, end),
{
    event.timestamp.is_in_span(start, end)
}

/// The test "starts in the cycle from `start` to `end`" on sessions.
pub open spec fn session_starts_in(start: Timestamp, end: Option<Timestamp>) -> spec_fn(
    CorrelatedSessionView,
) -> bool {
    |session: CorrelatedSessionView| session.session.time_start.in_span(start, end)
}

/// The test "happened in the cycle from `start` to `end`" on application
/// events.
pub open spec fn app_event_in(start: Timestamp, end: Option<Timestamp>) -> spec_fn(
    AppEventView,
) -> bool {
    |event: AppEventView| event.timestamp.in_span(start, end)
}

/// The seconds read in a session; none for a session that is not complete.
pub open spec fn seconds_read_of() -> spec_fn(CorrelatedSessionView) -> nat {
    |session: CorrelatedSessionView|
        match session.session.seconds_read {
            Some(seconds) => seconds as nat,
            None => 0,
        }
}

/// The pages turned in a session; none for a session that is not complete.
pub open spec fn pages_of() -> spec_fn(CorrelatedSessionView) -> nat {
    |session: CorrelatedSessionView|
        match session.session.pages_turned {
            Some(pages) => pages as nat,
            None => 0,
        }
}

/// The button presses of a session; none for a session that is not complete.
pub open spec fn presses_of() -> spec_fn(CorrelatedSessionView) -> nat {
    |session: CorrelatedSessionView|
        match session.session.button_press_count {
            Some(presses) => presses as nat,
            None => 0,
        }
}

/// The dictionary lookups of a session.
pub open spec fn lookups_of() -> spec_fn(CorrelatedSessionView) -> nat {
    |session: CorrelatedSessionView| session.dictionary.len()
}

/// The changes of brightness and of natural light of a session, together.
pub open spec fn light_changes_of() -> spec_fn(CorrelatedSessionView) -> nat {
    |session: CorrelatedSessionView| session.brightness.len() + session.natural_light.len()
}

/// The sum of a measure over sessions.
pub open spec fn total(
    sessions: Seq<CorrelatedSessionView>,
    measure: spec_fn(CorrelatedSessionView) -> nat,
) -> nat
    decreases sessions.len(),
{
    if sessions.len() == 0 {
        0
    } else {
        total(sessions.drop_last(), measure) + measure(sessions.last())
    }
}

/// `n`, or the largest `u64` where `n` is larger.
pub open spec fn capped_u64(n: nat) -> u64 {
    if n > u64::MAX {
        u64::MAX
    } else {
        n as u64
    }
}

/// `n`, or the largest `usize` where `n` is larger.
pub open spec fn capped_usize(n: nat) -> usize {
    if n > usize::MAX {
        usize::MAX
    } else {
        n as usize
    }
}

/// The metrics of a cycle: the sums of seconds read, pages turned and button
/// presses over its sessions, the number of dictionary lookups and of light
/// changes in its sessions, and the number of application starts among its
/// application events. A sum beyond the range of its field stays at the
/// largest value of the field.
pub open spec fn metrics_of(
    sessions: Seq<CorrelatedSessionView>,
    app_events: Seq<AppEventView>,
) -> ChargeCycleMetrics {
    ChargeCycleMetrics {
        total_seconds_read: capped_u64(total(sessions, seconds_read_of())),
        total_pages: capped_u64(total(sessions, pages_of())),
        total_button_presses: capped_u64(total(sessions, presses_of())),
        dictionary_lookups: capped_usize(total(sessions, lookups_of())),
        brightness_events: capped_usize(total(sessions, light_changes_of())),
        app_starts: app_events.filter(is_app_start()).len() as usize,
    }
}

/// One session more adds its measure to the sum.
pub proof fn lemma_total_step(
    sessions: Seq<CorrelatedSessionView>,
    measure: spec_fn(CorrelatedSessionView) -> nat,
    i: int,
)
    requires
        0 <= i < sessions.len(),
    ensures
        total(sessions.take(i + 1), measure) == total(sessions.take(i), measure) + measure(
            sessions[i],
        ),
{
    assert(sessions.take(i + 1).drop_last() =~= sessions.take(i));
}

/// The metrics of a cycle from its sessions and its application events.
pub fn compute_cycle_metrics(sessions: &Vec<CorrelatedSession>, app_events: &Vec<AppEvent>) -> (r:
    ChargeCycleMetrics)
    ensures
        r == metrics_of(views(sessions@), views(app_events@)),
{
    let ghost all = views(sessions@);
    let mut total_seconds_read: u64 = 0;
    let mut total_pages: u64 = 0;
    let mut total_button_presses: u64 = 0;
    let mut dictionary_lookups: usize = 0;
    let mut brightness_events: usize = 0;
    let mut i: usize = 0;
    while i < sessions.len()
        invariant
            i <= sessions@.len(),
            all == views(sessions@),
            total_seconds_read == capped_u64(total(all.take(i as int), seconds_read_of())),
            total_pages == capped_u64(total(all.take(i as int), pages_of())),
            total_button_presses == capped_u64(total(all.take(i as int), presses_of())),
            dictionary_lookups == capped_usize(total(all.take(i as int), lookups_of())),
            brightness_events == capped_usize(total(all.take(i as int), light_changes_of())),
        decreases sessions@.len() - i,
    {
        let session = &sessions[i];
        proof {
            lemma_total_step(all, seconds_read_of(), i as int);
            lemma_total_step(all, pages_of(), i as int);
            lemma_total_step(all, presses_of(), i as int);
            lemma_total_step(all, lookups_of(), i as int);
            lemma_total_step(all, light_changes_of(), i as int);
        }
        let seconds: u64 = match session.session.seconds_read {
            Some(seconds) => seconds,
            None => 0,
        };
        let pages: u64 = match session.session.pages_turned {
            Some(pages) => pages,
            None => 0,
        };
        let presses: u64 = match session.session.button_press_count {
            Some(presses) => presses,
            None => 0,
        };
        total_seconds_read = total_seconds_read.saturating_add(seconds);
        total_pages = total_pages.saturating_add(pages);
        total_button_presses = total_button_presses.saturating_add(presses);
        dictionary_lookups = dictionary_lookups.saturating_add(session.dictionary.len());
        brightness_events = brightness_events.saturating_add(session.brightness.len());
        brightness_events = brightness_events.saturating_add(session.natural_light.len());
        i += 1;
    }
    let ghost events = views(app_events@);
    let mut app_starts: usize = 0;
    let mut k: usize = 0;
    proof {
        assert(all.take(i as int) =~= all);
        lemma_filter_none(events.take(0), is_app_start());
    }
    while k < app_events.len()
        invariant
            k <= app_events@.len(),
            events == views(app_events@),
            app_starts == events.take(k as int).filter(is_app_start()).len(),
            app_starts <= k,
        decreases app_events@.len() - k,
    {
        proof {
            lemma_filter_step(events, is_app_start(), k as int);
        }
        if matches!(app_events[k].kind, AppEventKind::AppStart) {
            app_starts += 1;
        }
        k += 1;
    }
    proof {
        assert(events.take(k as int) =~= events);
    }
    ChargeCycleMetrics {
        total_seconds_read,
        total_pages,
        total_button_presses,
        dictionary_lookups,
        brightness_events,
        app_starts,
    }
}

/// The sessions that start in the cycle from `start` to `end`, copied in
/// their order.
pub fn sessions_in_cycle(
    sessions: &Vec<CorrelatedSession>,
    start: Timestamp,
    end: Option<Timestamp>,
) -> (r: Vec<CorrelatedSession>)
    ensures
        views(r@) == views(sessions@).filter(session_starts_in(start, end)),
{
    let ghost all = views(sessions@);
    let ghost keep = session_starts_in(start, end);
    let mut own: Vec<CorrelatedSession> = Vec::new();
    let mut i: usize = 0;
    proof {
        lemma_filter_none(all.take(0), keep);
    }
    while i < sessions.len()
        invariant
            i <= sessions@.len(),
            all == views(sessions@),
            keep == session_starts_in(start, end),
            views(own@) == all.take(i as int).filter(keep),
        decreases sessions@.len() - i,
    {
        let session = &sessions[i];
        proof {
            lemma_filter_step(all, keep, i as int);
        }
        if session_in_cycle(&session.session, start, end) {
            let copy = session.clone();
            proof {
                lemma_views_push(own@, copy);
            }
            own.push(copy);
        }
        i += 1;
    }
    proof {
        assert(all.take(i as int) =~= all);
    }
    own
}

/// The application events that happened in the cycle from `start` to `end`,
/// copied in their order.
pub fn app_events_in_cycle(
    app_events: &Vec<AppEvent>,
    start: Timestamp,
    end: Option<Timestamp>,
) -> (r: Vec<AppEvent>)
    ensures
        views(r@) == views(app_events@).filter(app_event_in(start, end)),
{
    let ghost all = views(app_events@);
    let ghost keep = app_event_in(start, end);
    let mut own: Vec<AppEvent> = Vec::new();
    let mut i: usize = 0;
    proof {
        lemma_filter_none(all.take(0), keep);
    }
    while i < app_events.len()
        invariant
            i <= app_events@.len(),
            all == views(app_events@),
            keep == app_event_in(start, end),
            views(own@) == all.take(i as int).filter(keep),
        decreases app_events@.len() - i,
    {
        let event = &app_events[i];
        proof {
            lemma_filter_step(all, keep, i as int);
        }
        if app_event_in_cycle(event, start, end) {
            let copy = event.clone();
            proof {
                lemma_views_push(own@, copy);
            }
            own.push(copy);
        }
        i += 1;
    }
    proof {
        assert(all.take(i as int) =~= all);
    }
    own
}

/// The end of the cycle at place `at`: the next plugging-in, if there is one.
pub open spec fn cycle_end(plugs: Seq<Timestamp>, at: int) -> Option<Timestamp> {
    if at + 1 < plugs.len() {
        Some(plugs[at + 1])
    } else {
        None
    }
}

/// The cycle that starts at the plugging-in at place `at` of `plugs`: the
/// sessions and the application events that fall in it, in their order, and
/// the metrics of exactly those.
pub open spec fn cycle_at(
    sessions: Seq<CorrelatedSessionView>,
    app_events: Seq<AppEventView>,
    plugs: Seq<Timestamp>,
    at: int,
) -> ChargeCycleView {
    let start = plugs[at];
    let end = cycle_end(plugs, at);
    let own_sessions = sessions.filter(session_starts_in(start, end));
    let own_events = app_events.filter(app_event_in(start, end));
    ChargeCycleView {
        start,
        end,
        sessions: own_sessions,
        app_events: own_events,
        metrics: metrics_of(own_sessions, own_events),
    }
}

/// The charge cycles of a log: one for each plugging-in among the
/// application events, earliest first.
pub open spec fn charge_cycles(
    sessions: Seq<CorrelatedSessionView>,
    app_events: Seq<AppEventView>,
) -> Seq<ChargeCycleView> {
    let plugs = plug_times(app_events);
    Seq::new(plugs.len(), |at: int| cycle_at(sessions, app_events, plugs, at))
}

/// Cuts the log into charge cycles.
pub fn build_charge_cycles(sessions: &Vec<CorrelatedSession>, app_events: &Vec<AppEvent>) -> (r:
    Vec<ChargeCycle>)
    ensures
        views(r@) == charge_cycles(views(sessions@), views(app_events@)),
{
    let plugs = plug_timestamps(app_events);
    let ghost list = views(sessions@);
    let ghost events = views(app_events@);
    let mut cycles: Vec<ChargeCycle> = Vec::new();
    let mut index: usize = 0;
    while index < plugs.len()
        invariant
            index <= plugs@.len(),
            plugs@ == plug_times(views(app_events@)),
            plugs@.len() <= app_events@.len(),
            list == views(sessions@),
            events == views(app_events@),
            cycles@.len() == index,
            forall|at: int|
                0 <= at < index ==> (#[trigger] cycles@[at])@ == cycle_at(list, events, plugs@, at),
        decreases plugs@.len() - index,
    {
        let start = plugs[index];
        let end = if index + 1 < plugs.len() {
            Some(plugs[index + 1])
        } else {
            None
        };
        let cycle_sessions = sessions_in_cycle(sessions, start, end);
        let cycle_app_events = app_events_in_cycle(app_events, start, end);
        let metrics = compute_cycle_metrics(&cycle_sessions, &cycle_app_events);
        cycles.push(
            ChargeCycle {
                start,
                end,
                sessions: cycle_sessions,
                app_events: cycle_app_events,
                metrics,
            },
        );
        index += 1;
    }
    cycles
}

} // verus!
