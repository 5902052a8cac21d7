//! What holds of the reconstruction, the correlation and the cycles, stated
//! over the models of the other modules and proved from them.

use crate::activity::{
    all_app_events, app_start_days, session_app_events, started_on, starts_on,
};
use crate::correlate::{
    app_belongs, apps_of, contains, correlated, lemma_first_match, light_belongs, orphaned,
    owner, owner_id, stamped, word_belongs, AuxiliaryView,
};
use crate::cycles::{
    charge_cycles, cycle_end, earliest_first, is_app_start, is_plug,
    lemma_instants_totally_ordered, metrics_of, plug_instants, plug_times, seconds_read_of,
    session_starts_in, total,
};
use crate::decode::{
    app_attributes, decoded, leading_space, lemma_space_within, trimmed, DecodedView,
    LeaveContentMetrics, PayloadView, ReadingAttributesView,
};
use crate::error::{DecodeError, EventIssue, IssueKind};
use crate::event::{EventKind, RawEventView};
use crate::model::app_event::{AppEventKind, AppEventView};
use crate::model::book::BookEntryView;
use crate::model::brightness::BrightnessEventView;
use crate::model::correlated::{ChargeCycleView, CorrelatedSessionView};
use crate::model::dictionary::DictionaryWordView;
use crate::model::session::{ReadingSessionView, MAX_PROGRESS};
use crate::parser::{correlated_analysis, ParseOption};
use crate::reconstruct::{app_rows, scan, ScanState};
use crate::render::{digit_char, digits_of};
use crate::seqs::{lemma_filter_none, lemma_filter_push};
use crate::text::decimal;
use crate::titles::all_titled;
use crate::time::{whole_seconds, Timestamp, NANOS_PER_SECOND};
use vstd::prelude::*;
use vstd::relations::sorted_by;

verus! {

/// The session that an open event and a leave event make together.
pub open spec fn session_of_pair(
    fresh: u128,
    open_id: Seq<char>,
    open_at: Timestamp,
    opened: ReadingAttributesView,
    leave_id: Seq<char>,
    leave_at: Timestamp,
    left: ReadingAttributesView,
    metrics: LeaveContentMetrics,
) -> ReadingSessionView {
    ReadingSessionView {
        id: fresh,
        open_content_id: open_id,
        leave_content_id: Some(leave_id),
        time_start: open_at,
        time_end: Some(leave_at),
        volume_id: opened.volumeid,
        start_progress: opened.progress_value(),
        end_progress: Some(left.progress_value()),
        book_title: opened.title,
        button_press_count: Some(metrics.button_press_count),
        seconds_read: Some(metrics.seconds_read),
        pages_turned: Some(metrics.pages_turned),
    }
}

/// An open event and the leave event that follows it, with a start that is
/// not after the end and a progress that runs upward within 0 to 100, yield
/// exactly one completed session, with exactly the values of the two events.
/// No session is open afterwards, and nothing is reported.
pub proof fn law_open_then_leave(
    state: ScanState,
    index: int,
    fresh: u128,
    other: u128,
    open_id: Seq<char>,
    open_at: Timestamp,
    opened: ReadingAttributesView,
    leave_id: Seq<char>,
    leave_at: Timestamp,
    left: ReadingAttributesView,
    metrics: LeaveContentMetrics,
)
    requires
        open_at.at_or_before(leave_at),
        opened.progress_value() <= left.progress_value() <= MAX_PROGRESS,
    ensures
        ({
            let open = DecodedView { timestamp: open_at, payload: PayloadView::Open(opened) };
            let leave = DecodedView {
                timestamp: leave_at,
                payload: PayloadView::Leave(left, metrics),
            };
            let after = state.apply(index, open_id, open, fresh).apply(
                index + 1,
                leave_id,
                leave,
                other,
            );
            let session = session_of_pair(
                fresh,
                open_id,
                open_at,
                opened,
                leave_id,
                leave_at,
                left,
                metrics,
            );
            &&& after.found.sessions == state.found.sessions.push(session)
            &&& after.current is None
            &&& after.found.issues == state.found.issues
            &&& session.is_complete()
            &&& session.well_formed()
        }),
{
}

/// A leave event that meets no open session never produces a session: it is
/// reported as an issue of the sequence, and the pass goes on from the state
/// it had.
pub proof fn law_leave_without_open(
    state: ScanState,
    index: int,
    fresh: u128,
    leave_id: Seq<char>,
    leave_at: Timestamp,
    left: ReadingAttributesView,
    metrics: LeaveContentMetrics,
)
    requires
        state.current is None,
    ensures
        ({
            let leave = DecodedView {
                timestamp: leave_at,
                payload: PayloadView::Leave(left, metrics),
            };
            let after = state.apply(index, leave_id, leave, fresh);
            &&& after.found.sessions == state.found.sessions
            &&& after.current is None
            &&& after.found.issues == state.found.issues.push(
                EventIssue { index: index as usize, kind: IssueKind::Sequence },
            )
        }),
{
}

/// In a log that begins with a leave event, that event produces no session
/// and is the first issue.
pub proof fn law_leading_leave(first: RawEventView, option: ParseOption, ids: Seq<u128>)
    requires
        option.selects(first.kind),
        (decoded(first) matches Ok(event) && event.payload is Leave),
        ids.len() == 1,
    ensures
        scan(seq![first], option, ids).found.sessions.len() == 0,
        scan(seq![first], option, ids).found.issues == seq![
            EventIssue { index: 0, kind: IssueKind::Sequence },
        ],
{
    let events = seq![first];
    assert(events.drop_last() =~= Seq::<RawEventView>::empty());
    let start = scan(events.drop_last(), option, ids.drop_last());
    assert(start == ScanState::initial());
    let after = start.step(option, 0, first, ids.last());
    assert(after.found.issues =~= seq![EventIssue { index: 0, kind: IssueKind::Sequence }]);
}

/// One event changes the sessions by at most one: a step keeps the sessions
/// or appends one, and never removes an issue. An event that cannot be
/// decoded or that breaks the sequence never stops the pass.
pub proof fn law_step_keeps_sessions(
    state: ScanState,
    option: ParseOption,
    index: int,
    event: RawEventView,
    fresh: u128,
)
    ensures
        ({
            let after = state.step(option, index, event, fresh);
            &&& after.found.sessions == state.found.sessions || (after.found.sessions.len()
                == state.found.sessions.len() + 1 && after.found.sessions.drop_last()
                == state.found.sessions)
            &&& after.found.issues == state.found.issues || (after.found.issues.len()
                == state.found.issues.len() + 1 && after.found.issues.drop_last()
                == state.found.issues)
        }),
{
    let after = state.step(option, index, event, fresh);
    if after.found.sessions != state.found.sessions {
        assert(after.found.sessions.drop_last() =~= state.found.sessions);
    }
    if after.found.issues != state.found.issues {
        assert(after.found.issues.drop_last() =~= state.found.issues);
    }
}

/// Whether the session under construction and all sessions found so far are
/// well formed, the former open and the latter complete.
pub open spec fn sound(state: ScanState) -> bool {
    &&& state.current matches Some(session) ==> session.well_formed() && !session.is_complete()
    &&& forall|i: int|
        0 <= i < state.found.sessions.len() ==> (#[trigger] state.found.sessions[i]).well_formed()
            && state.found.sessions[i].is_complete()
}

/// Every session that a pass over a log emits is complete and well formed:
/// it does not end before it starts, and its progress runs upward within 0 to
/// 100.
pub proof fn law_sessions_well_formed(
    events: Seq<RawEventView>,
    option: ParseOption,
    ids: Seq<u128>,
)
    ensures
        sound(scan(events, option, ids)),
    decreases events.len(),
{
    if events.len() > 0 {
        law_sessions_well_formed(events.drop_last(), option, ids.drop_last());
    }
}

/// An event belongs to the session at place `at` if and only if that session
/// contains its instant and no earlier session of the list does; it is an
/// orphan if and only if no session contains its instant.
pub proof fn law_owner(sessions: Seq<ReadingSessionView>, ts: Timestamp, tolerance: nat, at: int)
    ensures
        owner(sessions, ts, tolerance) == Some(at) <==> {
            &&& 0 <= at < sessions.len()
            &&& contains(sessions[at], ts, tolerance)
            &&& forall|j: int| 0 <= j < at ==> !contains(#[trigger] sessions[j], ts, tolerance)
        },
        owner(sessions, ts, tolerance) is None <==> forall|j: int|
            0 <= j < sessions.len() ==> !contains(#[trigger] sessions[j], ts, tolerance),
{
    lemma_first_match(sessions, ts, tolerance, 0);
}

/// With a single session, an event is assigned to it if and only if its
/// instant lies between the start less the tolerance and the end plus the
/// tolerance, both included.
pub proof fn law_single_session(session: ReadingSessionView, ts: Timestamp, tolerance: nat)
    ensures
        owner(seq![session], ts, tolerance) == if contains(session, ts, tolerance) {
            Some(0int)
        } else {
            None
        },
        contains(session, ts, tolerance) <==> (session.time_end matches Some(end) && ts.within(
            session.time_start,
            end,
            tolerance,
        )),
{
    law_owner(seq![session], ts, tolerance, 0);
}

/// A wider tolerance loses no match.
pub proof fn law_tolerance_widens(
    session: ReadingSessionView,
    ts: Timestamp,
    narrow: nat,
    wide: nat,
)
    requires
        narrow <= wide,
        contains(session, ts, narrow),
    ensures
        contains(session, ts, wide),
{
}

/// The reach of the tolerance past the end of a session, for instants
/// outside leap seconds: an event `late` whole seconds after the end is
/// inside if and only if `late` is at most the tolerance.
pub proof fn law_tolerance_reach(
    session: ReadingSessionView,
    ts: Timestamp,
    tolerance: nat,
    late: nat,
)
    requires
        (session.time_end matches Some(end) && session.time_start.at_or_before(end) && end.nanos
            < NANOS_PER_SECOND && ts.seconds == end.seconds + late && ts.nanos == end.nanos),
        session.time_start.nanos < NANOS_PER_SECOND,
    ensures
        contains(session, ts, tolerance) <==> late <= tolerance,
{
}

/// The reach of the tolerance before the start of a session, for instants
/// outside leap seconds: an event `early` whole seconds before the start is
/// inside if and only if `early` is at most the tolerance.
pub proof fn law_tolerance_reach_before(
    session: ReadingSessionView,
    ts: Timestamp,
    tolerance: nat,
    early: nat,
)
    requires
        (session.time_end matches Some(end) && session.time_start.at_or_before(end) && end.nanos
            < NANOS_PER_SECOND),
        session.time_start.nanos < NANOS_PER_SECOND,
        ts.seconds == session.time_start.seconds - early,
        ts.nanos == session.time_start.nanos,
    ensures
        contains(session, ts, tolerance) <==> early <= tolerance,
{
}

/// The brightness events of the session at place `at` are exactly the
/// brightness events of the log that belong to it.
pub proof fn law_assigned_lights(
    sessions: Seq<ReadingSessionView>,
    events: AuxiliaryView,
    tolerance: nat,
    at: int,
    event: BrightnessEventView,
)
    requires
        0 <= at < sessions.len(),
    ensures
        correlated(sessions, events, tolerance)[at].brightness.contains(event) <==> (
        events.brightness.contains(event) && owner(sessions, event.timestamp, tolerance) == Some(
            at,
        )),
{
    let keep = light_belongs(sessions, tolerance, Some(at));
    let kept = events.brightness.filter(keep);
    if kept.contains(event) {
        let i = choose|i: int| 0 <= i < kept.len() && kept[i] == event;
        events.brightness.lemma_filter_pred(keep, i);
        events.brightness.lemma_filter_contains_rev(keep, event);
    }
    if events.brightness.contains(event) && keep(event) {
        let i = choose|i: int| 0 <= i < events.brightness.len() && events.brightness[i] == event;
        events.brightness.lemma_filter_contains(keep, i);
    }
}

/// The natural-light events of the session at place `at` are exactly the
/// natural-light events of the log that belong to it.
pub proof fn law_assigned_natural_light(
    sessions: Seq<ReadingSessionView>,
    events: AuxiliaryView,
    tolerance: nat,
    at: int,
    event: BrightnessEventView,
)
    requires
        0 <= at < sessions.len(),
    ensures
        correlated(sessions, events, tolerance)[at].natural_light.contains(event) <==> (
        events.natural_light.contains(event) && owner(sessions, event.timestamp, tolerance)
            == Some(at)),
{
    let keep = light_belongs(sessions, tolerance, Some(at));
    let kept = events.natural_light.filter(keep);
    if kept.contains(event) {
        let i = choose|i: int| 0 <= i < kept.len() && kept[i] == event;
        events.natural_light.lemma_filter_pred(keep, i);
        events.natural_light.lemma_filter_contains_rev(keep, event);
    }
    if events.natural_light.contains(event) && keep(event) {
        let i = choose|i: int|
            0 <= i < events.natural_light.len() && events.natural_light[i] == event;
        events.natural_light.lemma_filter_contains(keep, i);
    }
}

/// The application events of the session at place `at` are exactly the
/// application events of the log that belong to it.
pub proof fn law_assigned_app_events(
    sessions: Seq<ReadingSessionView>,
    events: AuxiliaryView,
    tolerance: nat,
    at: int,
    event: AppEventView,
)
    requires
        0 <= at < sessions.len(),
    ensures
        correlated(sessions, events, tolerance)[at].app_events.contains(event) <==> (
        events.app_events.contains(event) && owner(sessions, event.timestamp, tolerance) == Some(
            at,
        )),
{
    let keep = app_belongs(sessions, tolerance, Some(at));
    let kept = events.app_events.filter(keep);
    if kept.contains(event) {
        let i = choose|i: int| 0 <= i < kept.len() && kept[i] == event;
        events.app_events.lemma_filter_pred(keep, i);
        events.app_events.lemma_filter_contains_rev(keep, event);
    }
    if events.app_events.contains(event) && keep(event) {
        let i = choose|i: int| 0 <= i < events.app_events.len() && events.app_events[i] == event;
        events.app_events.lemma_filter_contains(keep, i);
    }
}

/// A word is among the words of the session at place `at` if and only if a
/// lookup of that term and language belongs to the session; it then carries
/// the identifier of the session.
pub proof fn law_assigned_words(
    sessions: Seq<ReadingSessionView>,
    events: AuxiliaryView,
    tolerance: nat,
    at: int,
    word: DictionaryWordView,
)
    requires
        0 <= at < sessions.len(),
    ensures
        correlated(sessions, events, tolerance)[at].dictionary.contains(word) <==> (
        word.session_id == Some(sessions[at].id) && exists|k: int|
            0 <= k < events.dictionary.len() && owner(
                sessions,
                (#[trigger] events.dictionary[k]).timestamp,
                tolerance,
            ) == Some(at) && events.dictionary[k].word.term == word.term
                && events.dictionary[k].word.lang == word.lang),
{
    let keep = word_belongs(sessions, tolerance, Some(at));
    let mark = stamped(owner_id(sessions, Some(at)));
    let kept = events.dictionary.filter(keep);
    let words = correlated(sessions, events, tolerance)[at].dictionary;
    if words.contains(word) {
        let i = choose|i: int| 0 <= i < words.len() && words[i] == word;
        events.dictionary.lemma_filter_pred(keep, i);
        events.dictionary.lemma_filter_contains_rev(keep, kept[i]);
        let k = choose|k: int| 0 <= k < events.dictionary.len() && events.dictionary[k] == kept[i];
    }
    if word.session_id == Some(sessions[at].id) && exists|k: int|
        0 <= k < events.dictionary.len() && owner(
            sessions,
            (#[trigger] events.dictionary[k]).timestamp,
            tolerance,
        ) == Some(at) && events.dictionary[k].word.term == word.term
            && events.dictionary[k].word.lang == word.lang {
        let k = choose|k: int|
            0 <= k < events.dictionary.len() && owner(
                sessions,
                (#[trigger] events.dictionary[k]).timestamp,
                tolerance,
            ) == Some(at) && events.dictionary[k].word.term == word.term
                && events.dictionary[k].word.lang == word.lang;
        events.dictionary.lemma_filter_contains(keep, k);
        let i = choose|i: int| 0 <= i < kept.len() && kept[i] == events.dictionary[k];
        assert(words[i] == mark(kept[i]));
    }
}

/// An event that belongs to no session is an orphan, and only such an event.
pub proof fn law_orphaned_lights(
    sessions: Seq<ReadingSessionView>,
    events: AuxiliaryView,
    tolerance: nat,
    event: BrightnessEventView,
)
    ensures
        orphaned(sessions, events, tolerance).brightness.contains(event) <==> (
        events.brightness.contains(event) && forall|j: int|
            0 <= j < sessions.len() ==> !contains(
                #[trigger] sessions[j],
                event.timestamp,
                tolerance,
            )),
{
    let keep = light_belongs(sessions, tolerance, None);
    let kept = events.brightness.filter(keep);
    law_owner(sessions, event.timestamp, tolerance, 0);
    if kept.contains(event) {
        let i = choose|i: int| 0 <= i < kept.len() && kept[i] == event;
        events.brightness.lemma_filter_pred(keep, i);
        events.brightness.lemma_filter_contains_rev(keep, event);
    }
    if events.brightness.contains(event) && keep(event) {
        let i = choose|i: int| 0 <= i < events.brightness.len() && events.brightness[i] == event;
        events.brightness.lemma_filter_contains(keep, i);
    }
}

/// A log of an open event and its leave event, both decoded, with a start
/// that is not after the end and a progress that runs upward within 0 to
/// 100, gives exactly one session, and no issue.
pub proof fn law_pair_log(
    open: RawEventView,
    leave: RawEventView,
    option: ParseOption,
    ids: Seq<u128>,
)
    requires
        ids.len() == 2,
        option.selects(open.kind),
        option.selects(leave.kind),
        ({
            &&& decoded(open) matches Ok(first)
            &&& decoded(leave) matches Ok(second)
            &&& first.payload matches PayloadView::Open(opened)
            &&& second.payload matches PayloadView::Leave(left, metrics)
            &&& first.timestamp.at_or_before(second.timestamp)
            &&& opened.progress_value() <= left.progress_value() <= MAX_PROGRESS
        }),
    ensures
        ({
            let first = decoded(open)->Ok_0;
            let second = decoded(leave)->Ok_0;
            let found = scan(seq![open, leave], option, ids).found;
            &&& found.issues.len() == 0
            &&& found.sessions == seq![
                session_of_pair(
                    ids[0],
                    open.id,
                    first.timestamp,
                    first.payload->Open_0,
                    leave.id,
                    second.timestamp,
                    second.payload->Leave_0,
                    second.payload->Leave_1,
                ),
            ]
        }),
{
    let events = seq![open, leave];
    assert(events.drop_last() =~= seq![open]);
    let start = scan(seq![open].drop_last(), option, ids.drop_last().drop_last());
    assert(scan(seq![open], option, ids.drop_last()) == start.step(option, 0, open, ids[0]));
    let first = decoded(open)->Ok_0;
    let second = decoded(leave)->Ok_0;
    law_open_then_leave(
        start,
        0,
        ids[0],
        ids.last(),
        open.id,
        first.timestamp,
        first.payload->Open_0,
        leave.id,
        second.timestamp,
        second.payload->Leave_0,
        second.payload->Leave_1,
    );
}

/// There are as many cycles as pluggings-in; with none, there is no cycle,
/// whatever the sessions.
pub proof fn law_cycles_count(sessions: Seq<CorrelatedSessionView>, app_events: Seq<AppEventView>)
    ensures
        charge_cycles(sessions, app_events).len() == app_events.filter(is_plug()).len(),
        app_events.filter(is_plug()).len() == 0 ==> charge_cycles(sessions, app_events)
            == Seq::<ChargeCycleView>::empty(),
{
    broadcast use vstd::seq_lib::group_to_multiset_ensures;

    lemma_instants_totally_ordered();
    plug_instants(app_events).lemma_sort_by_ensures(earliest_first());
    plug_instants(app_events).to_multiset_ensures();
    plug_times(app_events).to_multiset_ensures();
    assert(plug_times(app_events).len() == plug_instants(app_events).len());
    if app_events.filter(is_plug()).len() == 0 {
        assert(charge_cycles(sessions, app_events) =~= Seq::empty());
    }
}

/// The cycles follow the pluggings-in in ascending order, each ends where
/// the next begins, and the last has no end.
pub proof fn law_cycles_contiguous(
    sessions: Seq<CorrelatedSessionView>,
    app_events: Seq<AppEventView>,
    at: int,
)
    requires
        0 <= at < charge_cycles(sessions, app_events).len(),
    ensures
        ({
            let cycles = charge_cycles(sessions, app_events);
            &&& at + 1 < cycles.len() ==> cycles[at].end == Some(cycles[at + 1].start)
                && cycles[at].start.at_or_before(cycles[at + 1].start)
            &&& at + 1 == cycles.len() ==> cycles[at].end is None
        }),
{
    lemma_instants_totally_ordered();
    plug_instants(app_events).lemma_sort_by_ensures(earliest_first());
    let plugs = plug_times(app_events);
    if at + 1 < plugs.len() {
        assert(earliest_first()(plugs[at], plugs[at + 1]));
    }
}

/// No instant lies in two cycles.
pub proof fn law_cycles_disjoint(
    sessions: Seq<CorrelatedSessionView>,
    app_events: Seq<AppEventView>,
    first: int,
    second: int,
    ts: Timestamp,
)
    requires
        0 <= first < second < charge_cycles(sessions, app_events).len(),
    ensures
        ({
            let cycles = charge_cycles(sessions, app_events);
            !(ts.in_span(cycles[first].start, cycles[first].end) && ts.in_span(
                cycles[second].start,
                cycles[second].end,
            ))
        }),
{
    lemma_instants_totally_ordered();
    plug_instants(app_events).lemma_sort_by_ensures(earliest_first());
    let plugs = plug_times(app_events);
    if first + 1 < second {
        assert(earliest_first()(plugs[first + 1], plugs[second]));
    }
}

/// The sessions of a cycle are exactly the sessions of the log that start in
/// it; where a session ends does not matter.
pub proof fn law_cycle_sessions(
    sessions: Seq<CorrelatedSessionView>,
    app_events: Seq<AppEventView>,
    at: int,
    session: CorrelatedSessionView,
)
    requires
        0 <= at < charge_cycles(sessions, app_events).len(),
    ensures
        ({
            let cycle = charge_cycles(sessions, app_events)[at];
            cycle.sessions.contains(session) <==> (sessions.contains(session)
                && session.session.time_start.in_span(cycle.start, cycle.end))
        }),
{
    let plugs = plug_times(app_events);
    let keep = session_starts_in(plugs[at], cycle_end(plugs, at));
    let kept = sessions.filter(keep);
    if kept.contains(session) {
        let i = choose|i: int| 0 <= i < kept.len() && kept[i] == session;
        sessions.lemma_filter_pred(keep, i);
        sessions.lemma_filter_contains_rev(keep, session);
    }
    if sessions.contains(session) && keep(session) {
        let i = choose|i: int| 0 <= i < sessions.len() && sessions[i] == session;
        sessions.lemma_filter_contains(keep, i);
    }
}

/// With two pluggings-in, the first before the second, there are two
/// cycles: the first holds the sessions that start at or after the first
/// plugging-in and before the second, the second those that start at or
/// after the second.
pub proof fn law_two_plugs(
    sessions: Seq<CorrelatedSessionView>,
    app_events: Seq<AppEventView>,
    first: Timestamp,
    second: Timestamp,
)
    requires
        first.before(second),
        plug_instants(app_events).to_multiset() == seq![first, second].to_multiset(),
    ensures
        ({
            let cycles = charge_cycles(sessions, app_events);
            &&& cycles.len() == 2
            &&& cycles[0].start == first && cycles[0].end == Some(second)
            &&& cycles[1].start == second && cycles[1].end is None
            &&& cycles[0].sessions == sessions.filter(session_starts_in(first, Some(second)))
            &&& cycles[1].sessions == sessions.filter(session_starts_in(second, None))
        }),
{
    lemma_instants_totally_ordered();
    let leq = earliest_first();
    plug_instants(app_events).lemma_sort_by_ensures(leq);
    let ordered = seq![first, second];
    assert(sorted_by(ordered, leq));
    vstd::seq_lib::lemma_sorted_unique(plug_times(app_events), ordered, leq);
}

/// The metrics of a cycle are those of exactly the sessions and the
/// application events that were placed into the cycle.
pub proof fn law_cycle_metrics(
    sessions: Seq<CorrelatedSessionView>,
    app_events: Seq<AppEventView>,
    at: int,
)
    requires
        0 <= at < charge_cycles(sessions, app_events).len(),
    ensures
        ({
            let cycle = charge_cycles(sessions, app_events)[at];
            &&& cycle.metrics == metrics_of(cycle.sessions, cycle.app_events)
            &&& total(cycle.sessions, seconds_read_of()) <= u64::MAX
                ==> cycle.metrics.total_seconds_read == total(cycle.sessions, seconds_read_of())
        }),
{
}

/// Each day on which the application was started has one entry, which
/// counts the starts of that day; a day without a start has none.
pub proof fn law_daily_starts(events: Seq<AppEventView>, day: i64)
    requires
        events.len() <= usize::MAX,
    ensures
        app_start_days(events).contains_key(day) <==> starts_on(events, day as int) > 0,
        app_start_days(events).contains_key(day) ==> app_start_days(events)[day] == starts_on(
            events,
            day as int,
        ),
{
    events.lemma_filter_len(started_on(day as int));
}

/// Two starts of the application on the same calendar day, and nothing
/// else, give one entry that counts two.
pub proof fn law_same_day(first: AppEventView, second: AppEventView)
    requires
        first.kind == AppEventKind::AppStart,
        second.kind == AppEventKind::AppStart,
        first.timestamp.day() == second.timestamp.day(),
    ensures
        app_start_days(seq![first, second]) == Map::<i64, usize>::empty().insert(
            first.timestamp.day() as i64,
            2usize,
        ),
{
    let events = seq![first, second];
    let day = first.timestamp.day();
    let seconds = first.timestamp.seconds as int;
    assert(i64::MIN <= day <= i64::MAX) by {
        assert(seconds / 86_400 <= seconds || seconds < 0) by (nonlinear_arith);
        assert(seconds / 86_400 >= seconds || seconds >= 0) by (nonlinear_arith);
    }
    assert forall|other: i64| starts_on(events, other as int) == if other == day {
        2nat
    } else {
        0nat
    } by {
        reveal_with_fuel(Seq::filter, 3);
    }
}

/// The seven names are seven different texts: a kind is found again from its
/// name.
pub proof fn law_kind_from_its_name(kind: EventKind)
    ensures
        kind.tag_text() matches Some(tag) ==> EventKind::of_tag(tag) == kind,
{
    reveal_strlit("OpenContent");
    reveal_strlit("LeaveContent");
    reveal_strlit("DictionaryLookup");
    reveal_strlit("BrightnessAdjusted");
    reveal_strlit("NaturalLightAdjusted");
    reveal_strlit("AppStart");
    reveal_strlit("PluggedIn");
    assert("OpenContent"@.len() == 11);
    assert("LeaveContent"@.len() == 12);
    assert("DictionaryLookup"@.len() == 16);
    assert("BrightnessAdjusted"@.len() == 18);
    assert("NaturalLightAdjusted"@.len() == 20);
    assert("AppStart"@.len() == 8);
    assert("PluggedIn"@.len() == 9);
}

/// A part selects exactly the kinds that its query names.
pub proof fn law_part_selects_its_kinds(option: ParseOption, kind: EventKind)
    ensures
        option.selects(kind) <==> option.kinds().contains(kind),
{
    let kinds = option.kinds();
    if option.selects(kind) {
        match option {
            ParseOption::All => {
                assert(kinds[0] == EventKind::OpenContent);
                assert(kinds[1] == EventKind::LeaveContent);
                assert(kinds[2] == EventKind::DictionaryLookup);
                assert(kinds[3] == EventKind::BrightnessAdjusted);
                assert(kinds[4] == EventKind::NaturalLightAdjusted);
                assert(kinds[5] == EventKind::AppStart);
                assert(kinds[6] == EventKind::PluggedIn);
            },
            ParseOption::ReadingSessions => {
                assert(kinds[0] == EventKind::OpenContent);
                assert(kinds[1] == EventKind::LeaveContent);
            },
            _ => {
                assert(kinds[0] == kind);
            },
        }
    }
}

/// What is written is read back as the same number.
pub proof fn law_written_number_reads_back(n: nat)
    ensures
        decimal(digits_of(n)) == Some(n),
        digits_of(n).len() > 0,
    decreases n,
{
    if n < 10 {
        let text = seq![digit_char(n)];
        assert(text.drop_last() =~= Seq::<char>::empty());
        assert(decimal(Seq::<char>::empty()) == Some(0nat));
    } else {
        law_written_number_reads_back(n / 10);
        let text = digits_of(n);
        assert(text.drop_last() =~= digits_of(n / 10));
    }
}

/// How many of the application events that belong to the first `upto`
/// sessions pass the test `test`.
spec fn kept_in_sessions(
    events: Seq<AppEventView>,
    sessions: Seq<ReadingSessionView>,
    tolerance: nat,
    test: spec_fn(AppEventView) -> bool,
    upto: int,
) -> nat
    decreases upto,
{
    if upto <= 0 {
        0
    } else {
        kept_in_sessions(events, sessions, tolerance, test, upto - 1) + apps_of(
            events,
            sessions,
            tolerance,
            Some(upto - 1),
        ).filter(test).len()
    }
}

/// The application events of the first `upto` sessions that pass a test are
/// those that belong to these sessions and pass it.
proof fn lemma_session_events_counted(
    sessions: Seq<ReadingSessionView>,
    events: AuxiliaryView,
    tolerance: nat,
    test: spec_fn(AppEventView) -> bool,
    upto: int,
)
    requires
        0 <= upto <= sessions.len(),
    ensures
        session_app_events(correlated(sessions, events, tolerance).take(upto)).filter(
            test,
        ).len() == kept_in_sessions(events.app_events, sessions, tolerance, test, upto),
    decreases upto,
{
    let with_events = correlated(sessions, events, tolerance);
    if upto == 0 {
        lemma_filter_none(session_app_events(with_events.take(0)), test);
    } else {
        lemma_session_events_counted(sessions, events, tolerance, test, upto - 1);
        let first = with_events.take(upto);
        assert(first.drop_last() =~= with_events.take(upto - 1));
        assert(first.last().app_events == apps_of(
            events.app_events,
            sessions,
            tolerance,
            Some(upto - 1),
        ));
        Seq::filter_distributes_over_add(
            session_app_events(first.drop_last()),
            first.last().app_events,
            test,
        );
    }
}

/// One application event more counts once among the sessions, if it passes
/// the test and belongs to one of them, and else not at all.
proof fn lemma_kept_step(
    events: Seq<AppEventView>,
    event: AppEventView,
    sessions: Seq<ReadingSessionView>,
    tolerance: nat,
    test: spec_fn(AppEventView) -> bool,
    upto: int,
)
    requires
        0 <= upto,
    ensures
        kept_in_sessions(events.push(event), sessions, tolerance, test, upto) == kept_in_sessions(
            events,
            sessions,
            tolerance,
            test,
            upto,
        ) + if test(event) && (owner(sessions, event.timestamp, tolerance) matches Some(at) && at
            < upto) {
            1nat
        } else {
            0nat
        },
    decreases upto,
{
    lemma_first_match(sessions, event.timestamp, tolerance, 0);
    if upto > 0 {
        lemma_kept_step(events, event, sessions, tolerance, test, upto - 1);
        let belongs = app_belongs(sessions, tolerance, Some(upto - 1));
        let here = owner(sessions, event.timestamp, tolerance) == Some(upto - 1);
        assert(belongs(event) == here);
        lemma_filter_push(events, event, belongs);
        lemma_filter_push(events.filter(belongs), event, test);
        let old_part = apps_of(events, sessions, tolerance, Some(upto - 1));
        let new_part = apps_of(events.push(event), sessions, tolerance, Some(upto - 1));
        assert(new_part.filter(test).len() == old_part.filter(test).len() + if test(event)
            && here {
            1nat
        } else {
            0nat
        });
    }
}

/// Of no application events, none is counted.
proof fn lemma_kept_of_none(
    events: Seq<AppEventView>,
    sessions: Seq<ReadingSessionView>,
    tolerance: nat,
    test: spec_fn(AppEventView) -> bool,
    upto: int,
)
    requires
        events.len() == 0,
    ensures
        kept_in_sessions(events, sessions, tolerance, test, upto) == 0,
    decreases upto,
{
    if upto > 0 {
        lemma_kept_of_none(events, sessions, tolerance, test, upto - 1);
        lemma_filter_none(events, app_belongs(sessions, tolerance, Some(upto - 1)));
        lemma_filter_none(events.filter(app_belongs(sessions, tolerance, Some(upto - 1))), test);
    }
}

/// Each application event is counted once: among the sessions, or among the
/// orphans.
proof fn lemma_every_event_counted(
    events: Seq<AppEventView>,
    sessions: Seq<ReadingSessionView>,
    tolerance: nat,
    test: spec_fn(AppEventView) -> bool,
)
    ensures
        kept_in_sessions(events, sessions, tolerance, test, sessions.len() as int) + apps_of(
            events,
            sessions,
            tolerance,
            None,
        ).filter(test).len() == events.filter(test).len(),
    decreases events.len(),
{
    let orphan = app_belongs(sessions, tolerance, None);
    if events.len() == 0 {
        lemma_kept_of_none(events, sessions, tolerance, test, sessions.len() as int);
        lemma_filter_none(events, orphan);
        lemma_filter_none(events.filter(orphan), test);
        lemma_filter_none(events, test);
    } else {
        let before = events.drop_last();
        let event = events.last();
        assert(before.push(event) =~= events);
        lemma_every_event_counted(before, sessions, tolerance, test);
        lemma_kept_step(before, event, sessions, tolerance, test, sessions.len() as int);
        lemma_first_match(sessions, event.timestamp, tolerance, 0);
        lemma_filter_push(before, event, orphan);
        lemma_filter_push(before.filter(orphan), event, test);
        lemma_filter_push(before, event, test);
    }
}

/// Correlation loses no application event and makes none: for any test, as
/// many application events of the sessions and of the orphans together pass
/// it as application events of the log do. With the test "is this event",
/// each event is there as often as it is in the log.
pub proof fn law_app_events_kept(
    sessions: Seq<ReadingSessionView>,
    events: AuxiliaryView,
    tolerance: nat,
    test: spec_fn(AppEventView) -> bool,
)
    ensures
        all_app_events(
            correlated(sessions, events, tolerance),
            orphaned(sessions, events, tolerance).app_events,
        ).filter(test).len() == events.app_events.filter(test).len(),
{
    let with_events = correlated(sessions, events, tolerance);
    let orphans = orphaned(sessions, events, tolerance).app_events;
    assert(with_events.take(sessions.len() as int) =~= with_events);
    lemma_session_events_counted(sessions, events, tolerance, test, sessions.len() as int);
    lemma_every_event_counted(events.app_events, sessions, tolerance, test);
    Seq::filter_distributes_over_add(session_app_events(with_events), orphans, test);
}

/// The starts of the application by day are those of the application events
/// of the log, whichever session an event was attached to, and whether it was
/// attached to one at all.
pub proof fn law_daily_starts_of_all(
    sessions: Seq<ReadingSessionView>,
    events: AuxiliaryView,
    tolerance: nat,
)
    ensures
        app_start_days(
            all_app_events(
                correlated(sessions, events, tolerance),
                orphaned(sessions, events, tolerance).app_events,
            ),
        ) == app_start_days(events.app_events),
{
    let all = all_app_events(
        correlated(sessions, events, tolerance),
        orphaned(sessions, events, tolerance).app_events,
    );
    assert forall|day: i64| starts_on(all, day as int) == starts_on(
        events.app_events,
        day as int,
    ) by {
        law_app_events_kept(sessions, events, tolerance, started_on(day as int));
    }
    assert(app_start_days(all) =~= app_start_days(events.app_events));
}

/// The application events that a pass finds are those of the rows of the
/// log, one for each row that gives one, in the order of the rows.
pub proof fn law_scan_app_events(events: Seq<RawEventView>, option: ParseOption, ids: Seq<u128>)
    ensures
        scan(events, option, ids).found.app_events == app_rows(events, option),
    decreases events.len(),
{
    if events.len() > 0 {
        law_scan_app_events(events.drop_last(), option, ids.drop_last());
    }
}

/// The daily counts of the correlated analysis of a log count, for each
/// calendar day, the rows of the log that are a start of the application on
/// that day, and nothing else: an entry for the day `day` is there if and
/// only if there is such a row, and it holds their number.
pub proof fn law_daily_starts_of_log(
    events: Seq<RawEventView>,
    ids: Seq<u128>,
    books: Seq<BookEntryView>,
    tolerance: nat,
    day: i64,
)
    requires
        events.len() <= usize::MAX,
    ensures
        ({
            let counts = correlated_analysis(
                scan(events, ParseOption::All, ids).found,
                books,
                tolerance,
            ).app_start_counts_by_day;
            let rows = app_rows(events, ParseOption::All);
            &&& counts == app_start_days(rows)
            &&& counts.contains_key(day) <==> starts_on(rows, day as int) > 0
            &&& counts.contains_key(day) ==> counts[day] == starts_on(rows, day as int)
        }),
{
    let found = scan(events, ParseOption::All, ids).found;
    let sessions = all_titled(found.sessions, books, found.event_books);
    let auxiliary = AuxiliaryView {
        dictionary: found.dictionary,
        brightness: found.brightness,
        natural_light: found.natural_light,
        app_events: found.app_events,
    };
    law_daily_starts_of_all(sessions, auxiliary, tolerance);
    law_scan_app_events(events, ParseOption::All, ids);
    lemma_app_rows_len(events, ParseOption::All);
    law_daily_starts(app_rows(events, ParseOption::All), day);
}

/// A log gives at most one application event for each row.
proof fn lemma_app_rows_len(events: Seq<RawEventView>, option: ParseOption)
    ensures
        app_rows(events, option).len() <= events.len(),
    decreases events.len(),
{
    if events.len() > 0 {
        lemma_app_rows_len(events.drop_last(), option);
    }
}

/// An application event whose row has no attributes, or an empty text for
/// them, has no attributes; and what is trimmed off a text never adds to it.
pub proof fn law_empty_attributes(text: Seq<char>)
    ensures
        app_attributes(None) == Ok::<Option<Seq<char>>, DecodeError>(None),
        text.len() == 0 ==> app_attributes(Some(text)) == Ok::<Option<Seq<char>>, DecodeError>(
            None,
        ),
        trimmed(text).len() <= text.len(),
{
    lemma_space_within(text);
    lemma_space_within(text.skip(leading_space(text) as int));
}

/// A session that starts and ends outside leap seconds, in the years that
/// `chrono` holds, lasts the whole seconds from its start to its end.
pub proof fn law_duration(session: ReadingSessionView)
    requires
        (session.time_end matches Some(end) && end.ordinary() && end.in_range()),
        session.time_start.ordinary(),
        session.time_start.in_range(),
    ensures
        session.duration() == Some(whole_seconds(session.time_start, session.time_end->0) as i64),
        session.time_start.nanos == session.time_end->0.nanos ==> session.duration() == Some(
            (session.time_end->0.seconds - session.time_start.seconds) as i64,
        ),
{
    let start = session.time_start;
    let end = session.time_end->0;
    if start.nanos == end.nanos {
        let apart = end.seconds - start.seconds;
        assert(whole_seconds(start, end) == apart) by (nonlinear_arith)
            requires
                whole_seconds(start, end) == if apart * 1_000_000_000 >= 0 {
                    (apart * 1_000_000_000) / 1_000_000_000
                } else {
                    -((-(apart * 1_000_000_000)) / 1_000_000_000)
                },
        ;
    }
}

/// The counts of the days `days`, summed.
pub open spec fn counts_summed(counts: Map<i64, usize>, days: Seq<i64>) -> nat
    decreases days.len(),
{
    if days.len() == 0 {
        0
    } else {
        counts_summed(counts, days.drop_last()) + counts[days.last()] as nat
    }
}

/// The test "is a start of the application on one of the days `days`".
pub open spec fn started_on_one_of(days: Seq<i64>) -> spec_fn(AppEventView) -> bool {
    |event: AppEventView|
        event.kind == AppEventKind::AppStart && exists|i: int|
            0 <= i < days.len() && (#[trigger] days[i]) as int == event.timestamp.day()
}

/// Of two tests that no item passes both, as many items pass the one or the
/// other as pass the one and pass the other, taken together.
proof fn lemma_filter_split<T>(
    items: Seq<T>,
    one: spec_fn(T) -> bool,
    other: spec_fn(T) -> bool,
    either: spec_fn(T) -> bool,
)
    requires
        forall|item: T| #[trigger] either(item) == (one(item) || other(item)),
        forall|item: T| !(#[trigger] one(item) && other(item)),
    ensures
        items.filter(either).len() == items.filter(one).len() + items.filter(other).len(),
    decreases items.len(),
{
    if items.len() == 0 {
        lemma_filter_none(items, either);
        lemma_filter_none(items, one);
        lemma_filter_none(items, other);
    } else {
        let before = items.drop_last();
        let item = items.last();
        assert(before.push(item) =~= items);
        lemma_filter_split(before, one, other, either);
        lemma_filter_push(before, item, either);
        lemma_filter_push(before, item, one);
        lemma_filter_push(before, item, other);
        assert(either(item) == (one(item) || other(item)));
        assert(!(one(item) && other(item)));
    }
}

/// Two tests that agree on every item of a sequence keep the same items.
proof fn lemma_filter_same<T>(items: Seq<T>, one: spec_fn(T) -> bool, other: spec_fn(T) -> bool)
    requires
        forall|i: int| 0 <= i < items.len() ==> one(#[trigger] items[i]) == other(items[i]),
    ensures
        items.filter(one) == items.filter(other),
    decreases items.len(),
{
    if items.len() == 0 {
        lemma_filter_none(items, one);
        lemma_filter_none(items, other);
    } else {
        let before = items.drop_last();
        let item = items.last();
        assert(before.push(item) =~= items);
        assert forall|i: int| 0 <= i < before.len() implies one(#[trigger] before[i]) == other(
            before[i],
        ) by {
            assert(before[i] == items[i]);
        }
        lemma_filter_same(before, one, other);
        lemma_filter_push(before, item, one);
        lemma_filter_push(before, item, other);
        assert(item == items[items.len() - 1]);
    }
}

/// The counts of distinct days, summed, are the number of starts on one of
/// these days.
proof fn lemma_counts_of_days(events: Seq<AppEventView>, days: Seq<i64>)
    requires
        events.len() <= usize::MAX,
        days.no_duplicates(),
        forall|i: int|
            0 <= i < days.len() ==> app_start_days(events).contains_key(#[trigger] days[i]),
    ensures
        counts_summed(app_start_days(events), days) == events.filter(
            started_on_one_of(days),
        ).len(),
    decreases days.len(),
{
    if days.len() == 0 {
        lemma_filter_same(events, started_on_one_of(days), |event: AppEventView| false);
        lemma_filter_nothing(events);
    } else {
        let before = days.drop_last();
        let day = days.last();
        assert forall|i: int| 0 <= i < before.len() implies app_start_days(events).contains_key(
            #[trigger] before[i],
        ) by {
            assert(before[i] == days[i]);
        }
        lemma_counts_of_days(events, before);
        assert(app_start_days(events).contains_key(days[days.len() - 1]));
        events.lemma_filter_len(started_on(day as int));
        let one = started_on_one_of(before);
        let other = started_on(day as int);
        let either = started_on_one_of(days);
        assert forall|event: AppEventView| #[trigger] either(event) == (one(event) || other(
            event,
        )) by {
            if one(event) {
                let i = choose|i: int|
                    0 <= i < before.len() && (#[trigger] before[i]) as int
                        == event.timestamp.day();
                assert(days[i] == before[i]);
            }
            if other(event) {
                assert(days[days.len() - 1] as int == event.timestamp.day());
            }
            if either(event) {
                let i = choose|i: int|
                    0 <= i < days.len() && (#[trigger] days[i]) as int == event.timestamp.day();
                if i < days.len() - 1 {
                    assert(before[i] == days[i]);
                }
            }
        }
        assert forall|event: AppEventView| !(#[trigger] one(event) && other(event)) by {
            if one(event) && other(event) {
                let i = choose|i: int|
                    0 <= i < before.len() && (#[trigger] before[i]) as int
                        == event.timestamp.day();
                assert(days[i] == days[days.len() - 1]);
            }
        }
        lemma_filter_split(events, one, other, either);
    }
}

/// No item passes the test that nothing passes.
proof fn lemma_filter_nothing(events: Seq<AppEventView>)
    ensures
        events.filter(|event: AppEventView| false).len() == 0,
    decreases events.len(),
{
    let nothing = |event: AppEventView| false;
    if events.len() == 0 {
        lemma_filter_none(events, nothing);
    } else {
        lemma_filter_nothing(events.drop_last());
        assert(events.drop_last().push(events.last()) =~= events);
        lemma_filter_push(events.drop_last(), events.last(), nothing);
    }
}

/// The daily counts add up to the number of starts of the application:
/// summed over the days that have an entry, each day once, they count each
/// start once, and nothing that is no start.
pub proof fn law_daily_starts_add_up(events: Seq<AppEventView>, days: Seq<i64>)
    requires
        events.len() <= usize::MAX,
        days.no_duplicates(),
        forall|day: i64| days.contains(day) <==> app_start_days(events).contains_key(day),
    ensures
        counts_summed(app_start_days(events), days) == events.filter(is_app_start()).len(),
{
    assert forall|i: int| 0 <= i < days.len() implies app_start_days(events).contains_key(
        #[trigger] days[i],
    ) by {
        assert(days.contains(days[i]));
    }
    lemma_counts_of_days(events, days);
    assert forall|i: int| 0 <= i < events.len() implies started_on_one_of(days)(
        #[trigger] events[i],
    ) == is_app_start()(events[i]) by {
        let event = events[i];
        if event.kind == AppEventKind::AppStart {
            let seconds = event.timestamp.seconds as int;
            assert(i64::MIN <= seconds / 86_400 <= i64::MAX) by {
                assert(seconds / 86_400 <= seconds || seconds < 0) by (nonlinear_arith);
                assert(seconds / 86_400 >= seconds || seconds >= 0) by (nonlinear_arith);
            }
            let day = event.timestamp.day() as i64;
            events.lemma_filter_contains(started_on(day as int), i);
            assert(events.filter(started_on(day as int)).len() > 0);
            assert(app_start_days(events).contains_key(day));
            assert(days.contains(day));
            let at = choose|at: int| 0 <= at < days.len() && days[at] == day;
            assert(days[at] as int == event.timestamp.day());
        }
    }
    lemma_filter_same(events, started_on_one_of(days), is_app_start());
}

} // verus!
