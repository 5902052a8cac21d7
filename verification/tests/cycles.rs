use kobo_db_tools::activity::{collect_app_events, count_app_starts_by_day};
use kobo_db_tools::correlate::{correlate, find_session_index, session_contains};
use kobo_db_tools::cycles::{
    app_event_in_cycle, build_charge_cycles, compute_cycle_metrics, plug_timestamps,
    session_in_cycle, sort_instants,
};
use kobo_db_tools::{
    AppEvent, AppEventKind, Brightness, BrightnessEvent, CorrelatedSession, DictionaryWord,
    ReadingSession, TimedDictionaryWord, Timestamp,
};

fn at(seconds: i64) -> Timestamp {
    Timestamp::new(seconds, 0)
}

fn session(id: u128, start: i64, end: i64, seconds_read: u64) -> ReadingSession {
    let mut session = ReadingSession::with_id(id, at(start), 0, None, None, "open".to_string());
    session.complete_session(at(end), 10, 2, seconds_read, 3, "leave".to_string()).unwrap();
    session
}

fn light(level: u8, when: i64) -> BrightnessEvent {
    BrightnessEvent::new(Brightness::new("manual".to_string(), level), at(when))
}

fn app(kind: AppEventKind, when: i64) -> AppEvent {
    AppEvent::new(kind, at(when), None)
}

#[test]
fn an_open_session_contains_nothing() {
    let open = ReadingSession::with_id(1, at(100), 0, None, None, "open".to_string());
    assert!(!session_contains(&open, at(100), 30));
    let closed = session(1, 100, 200, 60);
    assert!(session_contains(&closed, at(70), 30));
    assert!(!session_contains(&closed, at(69), 30));
    assert!(session_contains(&closed, at(230), 30));
    assert!(!session_contains(&closed, at(231), 30));
}

#[test]
fn the_first_session_that_contains_the_instant_is_found() {
    let sessions = vec![
        CorrelatedSession::new(session(1, 100, 200, 60)),
        CorrelatedSession::new(session(2, 150, 300, 60)),
        CorrelatedSession::new(session(3, 1000, 1100, 60)),
    ];
    assert_eq!(find_session_index(&sessions, at(160), 0), Some(0));
    assert_eq!(find_session_index(&sessions, at(250), 0), Some(1));
    assert_eq!(find_session_index(&sessions, at(210), 30), Some(0));
    assert_eq!(find_session_index(&sessions, at(1000), 0), Some(2));
    assert_eq!(find_session_index(&sessions, at(500), 30), None);
    assert_eq!(find_session_index(&Vec::new(), at(500), 30), None);
}

#[test]
fn events_go_to_their_sessions_in_order() {
    let sessions = vec![session(1, 100, 200, 60), session(2, 1000, 1100, 60)];
    let words = vec![
        TimedDictionaryWord {
            timestamp: at(1050),
            word: DictionaryWord::new("b".to_string(), "en".to_string(), Some(77)),
        },
        TimedDictionaryWord {
            timestamp: at(150),
            word: DictionaryWord::new("a".to_string(), "en".to_string(), None),
        },
        TimedDictionaryWord {
            timestamp: at(5000),
            word: DictionaryWord::new("c".to_string(), "de".to_string(), Some(77)),
        },
        TimedDictionaryWord {
            timestamp: at(1060),
            word: DictionaryWord::new("d".to_string(), "en".to_string(), None),
        },
    ];
    let brightness = vec![light(10, 99), light(20, 500), light(30, 1100)];
    let natural = vec![light(40, 200)];
    let apps = vec![app(AppEventKind::PluggedIn, 0), app(AppEventKind::AppStart, 130)];
    let (found, orphans) = correlate(sessions, &words, &brightness, &natural, &apps, 30);
    assert_eq!(found.len(), 2);
    assert_eq!(found[0].session.id, 1);
    assert_eq!(found[0].dictionary.len(), 1);
    assert_eq!(found[0].dictionary[0].term(), "a");
    assert_eq!(found[0].dictionary[0].session_id(), Some(1));
    assert_eq!(found[1].dictionary.len(), 2);
    assert_eq!(found[1].dictionary[0].term(), "b");
    assert_eq!(found[1].dictionary[0].session_id(), Some(2));
    assert_eq!(found[1].dictionary[1].term(), "d");
    assert_eq!(orphans.dictionary.len(), 1);
    assert_eq!(orphans.dictionary[0].term(), "c");
    assert_eq!(orphans.dictionary[0].lang(), "de");
    assert_eq!(orphans.dictionary[0].session_id(), None);
    assert_eq!(found[0].brightness.len(), 1);
    assert_eq!(found[0].brightness[0].brightness.percentage, 10);
    assert_eq!(found[1].brightness.len(), 1);
    assert_eq!(found[1].brightness[0].brightness.percentage, 30);
    assert_eq!(orphans.brightness.len(), 1);
    assert_eq!(orphans.brightness[0].brightness.percentage, 20);
    assert_eq!(found[0].natural_light.len(), 1);
    assert_eq!(found[1].natural_light.len(), 0);
    assert_eq!(orphans.natural_light.len(), 0);
    assert_eq!(found[0].app_events.len(), 1);
    assert_eq!(found[0].app_events[0].kind, AppEventKind::AppStart);
    assert_eq!(orphans.app_events.len(), 1);
    assert_eq!(orphans.app_events[0].kind, AppEventKind::PluggedIn);

    let all = collect_app_events(&found, &orphans.app_events);
    assert_eq!(all.len(), 2);
    assert_eq!(all[0].timestamp, at(130));
    assert_eq!(all[1].timestamp, at(0));
}

#[test]
fn instants_are_sorted() {
    let sorted = sort_instants(&vec![
        Timestamp::new(5, 0),
        Timestamp::new(-3, 9),
        Timestamp::new(5, 1),
        Timestamp::new(-3, 2),
        Timestamp::new(5, 0),
        Timestamp::new(0, 0),
    ]);
    assert_eq!(
        sorted,
        vec![
            Timestamp::new(-3, 2),
            Timestamp::new(-3, 9),
            Timestamp::new(0, 0),
            Timestamp::new(5, 0),
            Timestamp::new(5, 0),
            Timestamp::new(5, 1),
        ]
    );
    assert!(sort_instants(&Vec::new()).is_empty());
}

#[test]
fn plug_events_give_the_starts_of_the_cycles() {
    let events = vec![
        app(AppEventKind::PluggedIn, 300),
        app(AppEventKind::AppStart, 50),
        app(AppEventKind::PluggedIn, 100),
        app(AppEventKind::PluggedIn, 200),
    ];
    assert_eq!(plug_timestamps(&events), vec![at(100), at(200), at(300)]);
    assert!(plug_timestamps(&vec![app(AppEventKind::AppStart, 50)]).is_empty());
}

#[test]
fn a_cycle_holds_what_starts_in_it() {
    let inside = session(1, 100, 5000, 60);
    assert!(session_in_cycle(&inside, at(100), Some(at(200))));
    assert!(session_in_cycle(&inside, at(0), None));
    assert!(!session_in_cycle(&inside, at(101), None));
    assert!(!session_in_cycle(&inside, at(0), Some(at(100))));
    let event = app(AppEventKind::AppStart, 100);
    assert!(app_event_in_cycle(&event, at(100), Some(at(101))));
    assert!(!app_event_in_cycle(&event, at(99), Some(at(100))));
    assert!(app_event_in_cycle(&event, at(100), None));
}

#[test]
fn metrics_sum_up_sessions_and_count_events() {
    let mut first = CorrelatedSession::new(session(1, 100, 200, 60));
    first.dictionary.push(DictionaryWord::new("a".to_string(), "en".to_string(), Some(1)));
    first.dictionary.push(DictionaryWord::new("b".to_string(), "en".to_string(), Some(1)));
    first.brightness.push(light(10, 100));
    first.natural_light.push(light(10, 100));
    first.natural_light.push(light(20, 110));
    let second = CorrelatedSession::new(session(2, 300, 400, 40));
    let open = CorrelatedSession::new(ReadingSession::with_id(
        3,
        at(500),
        0,
        None,
        None,
        "open".to_string(),
    ));
    let apps = vec![
        app(AppEventKind::AppStart, 1),
        app(AppEventKind::PluggedIn, 2),
        app(AppEventKind::AppStart, 3),
    ];
    let metrics = compute_cycle_metrics(&vec![first, second, open], &apps);
    assert_eq!(metrics.total_seconds_read, 100);
    assert_eq!(metrics.total_pages, 6);
    assert_eq!(metrics.total_button_presses, 4);
    assert_eq!(metrics.dictionary_lookups, 2);
    assert_eq!(metrics.brightness_events, 3);
    assert_eq!(metrics.app_starts, 2);

    let nothing = compute_cycle_metrics(&Vec::new(), &Vec::new());
    assert_eq!(nothing.total_seconds_read, 0);
    assert_eq!(nothing.app_starts, 0);
}

#[test]
fn a_sum_beyond_the_range_stays_at_the_largest_value() {
    let sessions = vec![
        CorrelatedSession::new(session(1, 100, 200, u64::MAX - 1)),
        CorrelatedSession::new(session(2, 300, 400, 1)),
    ];
    assert_eq!(compute_cycle_metrics(&sessions, &Vec::new()).total_seconds_read, u64::MAX);
    let sessions = vec![
        CorrelatedSession::new(session(1, 100, 200, u64::MAX - 1)),
        CorrelatedSession::new(session(2, 300, 400, 5)),
        CorrelatedSession::new(session(3, 500, 600, 5)),
    ];
    let metrics = compute_cycle_metrics(&sessions, &Vec::new());
    assert_eq!(metrics.total_seconds_read, u64::MAX);
    assert_eq!(metrics.total_pages, 9);
}

#[test]
fn cycles_are_built_from_the_plug_events() {
    let sessions = vec![
        CorrelatedSession::new(session(1, 50, 60, 10)),
        CorrelatedSession::new(session(2, 100, 450, 20)),
        CorrelatedSession::new(session(3, 299, 300, 30)),
        CorrelatedSession::new(session(4, 300, 310, 40)),
    ];
    let apps = vec![
        app(AppEventKind::PluggedIn, 300),
        app(AppEventKind::AppStart, 100),
        app(AppEventKind::PluggedIn, 100),
        app(AppEventKind::AppStart, 350),
        app(AppEventKind::AppStart, 20),
    ];
    let cycles = build_charge_cycles(&sessions, &apps);
    assert_eq!(cycles.len(), 2);
    assert_eq!(cycles[0].start, at(100));
    assert_eq!(cycles[0].end, Some(at(300)));
    assert_eq!(cycles[0].sessions.len(), 2);
    assert_eq!(cycles[0].sessions[0].session.id, 2);
    assert_eq!(cycles[0].sessions[1].session.id, 3);
    assert_eq!(cycles[0].app_events.len(), 2);
    assert_eq!(cycles[0].metrics.total_seconds_read, 50);
    assert_eq!(cycles[0].metrics.app_starts, 1);
    assert_eq!(cycles[1].start, at(300));
    assert_eq!(cycles[1].end, None);
    assert_eq!(cycles[1].sessions.len(), 1);
    assert_eq!(cycles[1].sessions[0].session.id, 4);
    assert_eq!(cycles[1].app_events.len(), 2);
    assert_eq!(cycles[1].metrics.total_seconds_read, 40);
    assert_eq!(cycles[1].metrics.app_starts, 1);
}

#[test]
fn two_plug_events_at_one_instant_make_an_empty_cycle() {
    let sessions = vec![CorrelatedSession::new(session(1, 100, 200, 10))];
    let apps = vec![app(AppEventKind::PluggedIn, 100), app(AppEventKind::PluggedIn, 100)];
    let cycles = build_charge_cycles(&sessions, &apps);
    assert_eq!(cycles.len(), 2);
    assert_eq!(cycles[0].end, Some(at(100)));
    assert_eq!(cycles[0].sessions.len(), 0);
    assert_eq!(cycles[0].app_events.len(), 0);
    assert_eq!(cycles[1].sessions.len(), 1);
    assert_eq!(cycles[1].app_events.len(), 2);
}

#[test]
fn starts_are_counted_by_day() {
    let events = vec![
        app(AppEventKind::AppStart, 0),
        app(AppEventKind::AppStart, 86_399),
        app(AppEventKind::PluggedIn, 100),
        app(AppEventKind::AppStart, 86_400),
        app(AppEventKind::AppStart, -1),
    ];
    let counts = count_app_starts_by_day(&events);
    assert_eq!(counts.len(), 3);
    assert_eq!(counts.get(&0), Some(&2));
    assert_eq!(counts.get(&1), Some(&1));
    assert_eq!(counts.get(&-1), Some(&1));
    assert!(count_app_starts_by_day(&vec![app(AppEventKind::PluggedIn, 100)]).is_empty());
}
