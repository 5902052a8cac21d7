//! The application events of a whole log, and the starts of the application
//! by calendar day.

use crate::model::app_event::{AppEvent, AppEventKind, AppEventView};
use crate::model::correlated::{CorrelatedSession, CorrelatedSessionView};
use crate::seqs::{lemma_filter_none, lemma_filter_step, lemma_views_push, views};
use std::collections::HashMap;
use vstd::prelude::*;

verus! {

/// The application events of the sessions, session by session.
pub open spec fn session_app_events(sessions: Seq<CorrelatedSessionView>) -> Seq<AppEventView>
    decreases sessions.len(),
{
    if sessions.len() == 0 {
        Seq::empty()
    } else {
        session_app_events(sessions.drop_last()) + sessions.last().app_events
    }
}

/// All application events of a log: those of the sessions, session by
/// session, then the orphans.
pub open spec fn all_app_events(
    sessions: Seq<CorrelatedSessionView>,
    orphans: Seq<AppEventView>,
) -> Seq<AppEventView> {
    session_app_events(sessions) + orphans
}

/// Appends copies of `events` to `all`.
fn append_copies(all: &mut Vec<AppEvent>, events: &Vec<AppEvent>)
    ensures
        views(final(all)@) == views(old(all)@) + views(events@),
{
    let ghost before = views(all@);
    let ghost added = views(events@);
    let mut k: usize = 0;
    while k < events.len()
        invariant
            k <= events@.len(),
            added == views(events@),
            views(all@) == before + added.take(k as int),
        decreases events@.len() - k,
    {
        let copy = events[k].clone();
        proof {
            lemma_views_push(all@, copy);
        }
        all.push(copy);
        k += 1;
    }
}

/// Copies of all application events of a log, those of the sessions first.
pub fn collect_app_events(sessions: &Vec<CorrelatedSession>, orphans: &Vec<AppEvent>) -> (r: Vec<
    AppEvent,
>)
    ensures
        views(r@) == all_app_events(views(sessions@), views(orphans@)),
{
    let ghost list = views(sessions@);
    let mut all: Vec<AppEvent> = Vec::new();
    let mut i: usize = 0;
    while i < sessions.len()
        invariant
            i <= sessions@.len(),
            list == views(sessions@),
            views(all@) == session_app_events(list.take(i as int)),
        decreases sessions@.len() - i,
    {
        proof {
            assert(list.take(i + 1).drop_last() =~= list.take(i as int));
        }
        append_copies(&mut all, &sessions[i].app_events);
        i += 1;
    }
    proof {
        assert(list.take(i as int) =~= list);
    }
    append_copies(&mut all, orphans);
    all
}

/// The test "is a start of the application on day `day`", the day counted in
/// days since 1970-01-01.
pub open spec fn started_on(day: int) -> spec_fn(AppEventView) -> bool {
    |event: AppEventView| event.kind == AppEventKind::AppStart && event.timestamp.day() == day
}

/// How often the application was started on day `day`.
pub open spec fn starts_on(events: Seq<AppEventView>, day: int) -> nat {
    events.filter(started_on(day)).len()
}

/// For each day on which the application was started, how often it was.
pub open spec fn app_start_days(events: Seq<AppEventView>) -> Map<i64, usize> {
    Map::new(
        |day: i64| starts_on(events, day as int) > 0,
        |day: i64| starts_on(events, day as int) as usize,
    )
}

/// Counts the starts of the application by calendar day.
pub fn count_app_starts_by_day(events: &Vec<AppEvent>) -> (r: HashMap<i64, usize>)
    ensures
        r@ == app_start_days(views(events@)),
{
    broadcast use vstd::std_specs::hash::group_hash_axioms;

    let ghost all = views(events@);
    let mut counts: HashMap<i64, usize> = HashMap::new();
    let mut k: usize = 0;
    proof {
        assert forall|day: i64| starts_on(all.take(0), day as int) == 0 by {
            lemma_filter_none(all.take(0), started_on(day as int));
        }
    }
    while k < events.len()
        invariant
            k <= events@.len(),
            all == views(events@),
            counts@ == app_start_days(all.take(k as int)),
        decreases events@.len() - k,
    {
        let event = &events[k];
        if matches!(event.kind, AppEventKind::AppStart) {
            let day = event.timestamp.day_number();
            let so_far: usize = match counts.get(&day) {
                Some(count) => *count,
                None => 0,
            };
            proof {
                all.take(k as int).lemma_filter_len(started_on(day as int));
            }
            counts.insert(day, so_far + 1);
            proof {
                assert forall|other: i64|
                    starts_on(all.take(k + 1), other as int) == starts_on(
                        all.take(k as int),
                        other as int,
                    ) + if other == day {
                        1nat
                    } else {
                        0nat
                    } by {
                    lemma_filter_step(all, started_on(other as int), k as int);
                }
            }
        } else {
            proof {
                assert forall|other: i64|
                    starts_on(all.take(k + 1), other as int) == starts_on(
                        all.take(k as int),
                        other as int,
                    ) by {
                    lemma_filter_step(all, started_on(other as int), k as int);
                }
            }
        }
        k += 1;
    }
    proof {
        assert(all.take(k as int) =~= all);
    }
    counts
}

} // verus!
