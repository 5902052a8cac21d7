use chrono::NaiveDate;
use kobo_db_tools::{
    scan_events, AppEventKind, BookEntry, CorrelatedAnalysis, IssueKind, ParseOption, Parser,
    RawEvent,
};

fn row(id: &str, kind: &str, timestamp: &str, attributes: &str, metrics: &str) -> RawEvent {
    RawEvent::new(
        id.to_string(),
        kind,
        timestamp.to_string(),
        Some(attributes.to_string()),
        Some(metrics.to_string()),
    )
}

fn day(year: i32, month: u32, day: u32) -> i64 {
    let date = NaiveDate::from_ymd_opt(year, month, day).unwrap();
    let epoch = NaiveDate::from_ymd_opt(1970, 1, 1).unwrap();
    date.signed_duration_since(epoch).num_days()
}

/// The rows as the query of the log hands them over: oldest first, rows of
/// one instant in the order in which they were inserted.
fn oldest_first(mut events: Vec<RawEvent>) -> Vec<RawEvent> {
    events.sort_by(|a, b| a.timestamp.cmp(&b.timestamp));
    events
}

fn analyse(events: Vec<RawEvent>) -> CorrelatedAnalysis {
    let scan = scan_events(&events, ParseOption::All);
    let books: Vec<BookEntry> = Vec::new();
    Parser::parse_correlated(scan, &books)
}

fn session_rows(open: &str, leave: &str) -> Vec<RawEvent> {
    vec![
        row(
            "session1_open",
            "OpenContent",
            open,
            "{\"progress\":\"0\",\"volumeid\":\"book1\"}",
            "",
        ),
        row(
            "session1_leave",
            "LeaveContent",
            leave,
            "{\"progress\":\"10\",\"volumeid\":\"book1\"}",
            "{\"ButtonPressCount\":10,\"SecondsRead\":600,\"PagesTurned\":5}",
        ),
    ]
}

#[test]
fn test_parse_correlated_basic() {
    let events = vec![
        row(
            "session1_open",
            "OpenContent",
            "2023-01-01T10:00:00Z",
            "{\"progress\":\"0\",\"volumeid\":\"book1\"}",
            "",
        ),
        row(
            "session1_leave",
            "LeaveContent",
            "2023-01-01T10:10:00Z",
            "{\"progress\":\"10\",\"volumeid\":\"book1\"}",
            "{\"ButtonPressCount\":10,\"SecondsRead\":600,\"PagesTurned\":5}",
        ),
        row(
            "dict_lookup1",
            "DictionaryLookup",
            "2023-01-01T10:02:00Z",
            "{\"Dictionary\":\"en\",\"Word\":\"test\"}",
            "",
        ),
        row(
            "dict_lookup2",
            "DictionaryLookup",
            "2023-01-01T11:00:00Z",
            "{\"Dictionary\":\"en\",\"Word\":\"orphan\"}",
            "",
        ),
        row(
            "brightness_adj1",
            "BrightnessAdjusted",
            "2023-01-01T10:03:00Z",
            "{\"Method\":\"manual\"}",
            "{\"NewBrightness\":50}",
        ),
        row(
            "natural_light_adj1",
            "NaturalLightAdjusted",
            "2023-01-01T10:04:00Z",
            "{\"Method\":\"auto\"}",
            "{\"NewNaturalLight\":70}",
        ),
        row("plugged_in1", "PluggedIn", "2023-01-01T09:50:00Z", "", ""),
        row("app_start1", "AppStart", "2023-01-01T10:00:10Z", "{\"app\":\"nickel\"}", ""),
    ];

    let analysis = analyse(oldest_first(events));

    assert_eq!(analysis.sessions.len(), 1);
    let session = &analysis.sessions[0];
    assert_eq!(session.dictionary.len(), 1);
    assert_eq!(session.brightness.len(), 1);
    assert_eq!(session.natural_light.len(), 1);
    assert_eq!(session.app_events.len(), 1);

    assert_eq!(analysis.orphans.dictionary.len(), 1);
    assert_eq!(analysis.orphans.app_events.len(), 1);

    assert_eq!(analysis.cycles.len(), 1);
    let cycle = &analysis.cycles[0];
    assert_eq!(cycle.metrics.total_seconds_read, 600);
    assert_eq!(cycle.metrics.total_pages, 5);
    assert_eq!(cycle.metrics.total_button_presses, 10);
    assert_eq!(cycle.metrics.dictionary_lookups, 1);
    assert_eq!(cycle.metrics.brightness_events, 2);
    assert_eq!(cycle.metrics.app_starts, 1);
    assert_eq!(analysis.app_start_counts_by_day.get(&day(2023, 1, 1)).copied(), Some(1));
}

#[test]
fn correlated_words_carry_the_session() {
    let mut events = session_rows("2023-01-01T10:00:00Z", "2023-01-01T10:10:00Z");
    events.push(row(
        "dict_lookup1",
        "DictionaryLookup",
        "2023-01-01T10:02:00Z",
        "{\"Dictionary\":\"en\",\"Word\":\"test\"}",
        "",
    ));
    events.push(row(
        "dict_lookup2",
        "DictionaryLookup",
        "2023-01-01T11:00:00Z",
        "{\"Dictionary\":\"fr\",\"Word\":\"orphan\"}",
        "",
    ));
    let analysis = analyse(events);
    let session = &analysis.sessions[0];
    assert_eq!(session.dictionary[0].term(), "test");
    assert_eq!(session.dictionary[0].lang(), "en");
    assert_eq!(session.dictionary[0].session_id(), Some(session.session.id));
    assert_eq!(analysis.orphans.dictionary[0].term(), "orphan");
    assert_eq!(analysis.orphans.dictionary[0].lang(), "fr");
    assert_eq!(analysis.orphans.dictionary[0].session_id(), None);
}

#[test]
fn event_29_seconds_after_the_end_matches() {
    let mut events = session_rows("2023-01-01T10:00:00Z", "2023-01-01T10:10:00Z");
    events.push(row(
        "brightness_adj1",
        "BrightnessAdjusted",
        "2023-01-01T10:10:29Z",
        "{\"Method\":\"manual\"}",
        "{\"NewBrightness\":50}",
    ));
    let analysis = analyse(events);
    assert_eq!(analysis.sessions[0].brightness.len(), 1);
    assert_eq!(analysis.orphans.brightness.len(), 0);
}

#[test]
fn event_30_seconds_after_the_end_matches() {
    let mut events = session_rows("2023-01-01T10:00:00Z", "2023-01-01T10:10:00Z");
    events.push(row(
        "brightness_adj1",
        "BrightnessAdjusted",
        "2023-01-01T10:10:30Z",
        "{\"Method\":\"manual\"}",
        "{\"NewBrightness\":50}",
    ));
    let analysis = analyse(events);
    assert_eq!(analysis.sessions[0].brightness.len(), 1);
}

#[test]
fn event_31_seconds_after_the_end_is_orphaned() {
    let mut events = session_rows("2023-01-01T10:00:00Z", "2023-01-01T10:10:00Z");
    events.push(row(
        "brightness_adj1",
        "BrightnessAdjusted",
        "2023-01-01T10:10:31Z",
        "{\"Method\":\"manual\"}",
        "{\"NewBrightness\":50}",
    ));
    let analysis = analyse(events);
    assert_eq!(analysis.sessions[0].brightness.len(), 0);
    assert_eq!(analysis.orphans.brightness.len(), 1);
    assert_eq!(analysis.orphans.brightness[0].brightness.percentage, 50);
    assert_eq!(analysis.orphans.brightness[0].brightness.method, "manual");
}

#[test]
fn event_30_seconds_before_the_start_matches_and_31_does_not() {
    let mut events = session_rows("2023-01-01T10:00:00Z", "2023-01-01T10:10:00Z");
    events.insert(
        0,
        row("app_start1", "AppStart", "2023-01-01T09:59:29Z", "{\"app\":\"nickel\"}", ""),
    );
    events.insert(
        1,
        row("app_start2", "AppStart", "2023-01-01T09:59:30Z", "{\"app\":\"nickel\"}", ""),
    );
    let analysis = analyse(events);
    assert_eq!(analysis.sessions[0].app_events.len(), 1);
    assert_eq!(analysis.orphans.app_events.len(), 1);
    assert_eq!(analysis.orphans.app_events[0].timestamp.seconds % 60, 29);
}

#[test]
fn zero_tolerance_removes_the_matches_past_the_end() {
    let mut events = session_rows("2023-01-01T10:00:00Z", "2023-01-01T10:10:00Z");
    events.push(row(
        "brightness_adj1",
        "BrightnessAdjusted",
        "2023-01-01T10:10:00Z",
        "{\"Method\":\"manual\"}",
        "{\"NewBrightness\":50}",
    ));
    events.push(row(
        "brightness_adj2",
        "BrightnessAdjusted",
        "2023-01-01T10:10:29Z",
        "{\"Method\":\"manual\"}",
        "{\"NewBrightness\":60}",
    ));
    let scan = scan_events(&events, ParseOption::All);
    let analysis = Parser::parse_correlated_within(scan, &Vec::new(), 0);
    assert_eq!(analysis.sessions[0].brightness.len(), 1);
    assert_eq!(analysis.sessions[0].brightness[0].brightness.percentage, 50);
    assert_eq!(analysis.orphans.brightness.len(), 1);
    assert_eq!(analysis.orphans.brightness[0].brightness.percentage, 60);
}

#[test]
fn an_event_in_two_windows_goes_to_the_earlier_session() {
    let mut events = session_rows("2023-01-01T10:00:00Z", "2023-01-01T10:10:00Z");
    events.extend(session_rows("2023-01-01T10:10:20Z", "2023-01-01T10:20:00Z"));
    events.push(row(
        "brightness_adj1",
        "BrightnessAdjusted",
        "2023-01-01T10:10:25Z",
        "{\"Method\":\"manual\"}",
        "{\"NewBrightness\":50}",
    ));
    let analysis = analyse(events);
    assert_eq!(analysis.sessions.len(), 2);
    assert_eq!(analysis.sessions[0].brightness.len(), 1);
    assert_eq!(analysis.sessions[1].brightness.len(), 0);
}

#[test]
fn no_plug_event_no_cycle() {
    let mut events = session_rows("2023-01-01T10:00:00Z", "2023-01-01T10:10:00Z");
    events.extend(session_rows("2023-01-02T10:00:00Z", "2023-01-02T10:10:00Z"));
    events.push(row("app_start1", "AppStart", "2023-01-01T10:00:10Z", "", ""));
    let analysis = analyse(events);
    assert_eq!(analysis.sessions.len(), 2);
    assert!(analysis.cycles.is_empty());
}

#[test]
fn two_plug_events_two_cycles() {
    let mut events = vec![row("plugged_in1", "PluggedIn", "2023-01-01T09:00:00Z", "", "")];
    events.extend(session_rows("2023-01-01T10:00:00Z", "2023-01-01T12:30:00Z"));
    events.push(row("plugged_in2", "PluggedIn", "2023-01-01T12:00:00Z", "", ""));
    events.extend(session_rows("2023-01-01T12:00:00Z", "2023-01-01T12:40:00Z"));
    events.extend(session_rows("2023-01-01T13:00:00Z", "2023-01-01T13:10:00Z"));
    let analysis = analyse(events);
    assert_eq!(analysis.sessions.len(), 3);
    assert_eq!(analysis.cycles.len(), 2);
    let first = &analysis.cycles[0];
    let second = &analysis.cycles[1];
    assert_eq!(first.end, Some(second.start));
    assert_eq!(second.end, None);
    assert_eq!(first.sessions.len(), 1);
    assert_eq!(first.sessions[0].session.id, analysis.sessions[0].session.id);
    assert_eq!(second.sessions.len(), 2);
    assert_eq!(second.sessions[0].session.id, analysis.sessions[1].session.id);
    assert_eq!(second.sessions[1].session.id, analysis.sessions[2].session.id);
    assert_eq!(first.metrics.total_seconds_read, 600);
    assert_eq!(second.metrics.total_seconds_read, 1200);
    assert_eq!(second.metrics.total_pages, 10);
    assert_eq!(second.metrics.total_button_presses, 20);
}

#[test]
fn plug_events_are_put_in_order() {
    let events = vec![
        row("plugged_in2", "PluggedIn", "2023-01-02T09:00:00Z", "", ""),
        row("plugged_in1", "PluggedIn", "2023-01-01T09:00:00Z", "", ""),
        row("plugged_in3", "PluggedIn", "2023-01-03T09:00:00Z", "", ""),
    ];
    let analysis = analyse(events);
    assert_eq!(analysis.cycles.len(), 3);
    assert!(analysis.cycles[0].start.seconds < analysis.cycles[1].start.seconds);
    assert!(analysis.cycles[1].start.seconds < analysis.cycles[2].start.seconds);
    assert_eq!(analysis.cycles[0].app_events.len(), 1);
    assert_eq!(analysis.cycles[2].app_events.len(), 1);
}

#[test]
fn a_session_before_the_first_plug_is_in_no_cycle() {
    let mut events = session_rows("2023-01-01T08:00:00Z", "2023-01-01T08:10:00Z");
    events.push(row("plugged_in1", "PluggedIn", "2023-01-01T09:00:00Z", "", ""));
    let analysis = analyse(events);
    assert_eq!(analysis.sessions.len(), 1);
    assert_eq!(analysis.cycles.len(), 1);
    assert_eq!(analysis.cycles[0].sessions.len(), 0);
    assert_eq!(analysis.cycles[0].metrics.total_seconds_read, 0);
}

#[test]
fn cycle_metrics_count_only_the_cycle() {
    let mut events = vec![row("plugged_in1", "PluggedIn", "2023-01-01T09:00:00Z", "", "")];
    events.extend(session_rows("2023-01-01T10:00:00Z", "2023-01-01T10:10:00Z"));
    events.push(row("app_start1", "AppStart", "2023-01-01T10:00:10Z", "", ""));
    events.push(row(
        "dict_lookup1",
        "DictionaryLookup",
        "2023-01-01T10:02:00Z",
        "{\"Dictionary\":\"en\",\"Word\":\"test\"}",
        "",
    ));
    events.push(row("plugged_in2", "PluggedIn", "2023-01-02T09:00:00Z", "", ""));
    events.extend(session_rows("2023-01-02T10:00:00Z", "2023-01-02T10:10:00Z"));
    events.push(row("app_start2", "AppStart", "2023-01-02T11:00:10Z", "", ""));
    events.push(row("app_start3", "AppStart", "2023-01-02T12:00:10Z", "", ""));
    let analysis = analyse(events);
    assert_eq!(analysis.cycles.len(), 2);
    assert_eq!(analysis.cycles[0].metrics.total_seconds_read, 600);
    assert_eq!(analysis.cycles[0].metrics.dictionary_lookups, 1);
    assert_eq!(analysis.cycles[0].metrics.app_starts, 1);
    assert_eq!(analysis.cycles[1].metrics.total_seconds_read, 600);
    assert_eq!(analysis.cycles[1].metrics.dictionary_lookups, 0);
    assert_eq!(analysis.cycles[1].metrics.app_starts, 2);
    assert_eq!(analysis.cycles[1].app_events.len(), 3);
}

#[test]
fn app_starts_of_one_day_make_one_entry() {
    let events = vec![
        row("app_start1", "AppStart", "2023-01-01T00:00:00Z", "", ""),
        row("plugged_in1", "PluggedIn", "2023-01-01T12:00:00Z", "", ""),
        row("app_start2", "AppStart", "2023-01-01T23:59:59Z", "", ""),
        row("app_start3", "AppStart", "2023-01-02T00:00:00Z", "", ""),
    ];
    let analysis = analyse(events);
    assert_eq!(analysis.app_start_counts_by_day.len(), 2);
    assert_eq!(analysis.app_start_counts_by_day.get(&day(2023, 1, 1)).copied(), Some(2));
    assert_eq!(analysis.app_start_counts_by_day.get(&day(2023, 1, 2)).copied(), Some(1));
    assert_eq!(analysis.app_start_counts_by_day.get(&day(2023, 1, 3)).copied(), None);
}

#[test]
fn a_day_before_1970_is_counted_under_a_negative_number() {
    let events = vec![row("app_start1", "AppStart", "1969-12-31T23:59:59Z", "", "")];
    let analysis = analyse(events);
    assert_eq!(analysis.app_start_counts_by_day.get(&-1).copied(), Some(1));
    assert_eq!(day(1969, 12, 31), -1);
}

#[test]
fn app_events_keep_their_attributes() {
    let events = vec![
        row("app_start1", "AppStart", "2023-01-01T10:00:10Z", "  {\"app\":\"nickel\"} ", ""),
        row("plugged_in1", "PluggedIn", "2023-01-01T09:50:00Z", "   ", ""),
        RawEvent::new(
            "plugged_in2".to_string(),
            "PluggedIn",
            "2023-01-01T09:55:00Z".to_string(),
            None,
            None,
        ),
    ];
    let scan = scan_events(&events, ParseOption::All);
    assert_eq!(scan.app_events.len(), 3);
    assert_eq!(scan.app_events[0].kind, AppEventKind::AppStart);
    assert_eq!(scan.app_events[0].attributes.as_deref(), Some("{\"app\":\"nickel\"}"));
    assert_eq!(scan.app_events[1].kind, AppEventKind::PluggedIn);
    assert_eq!(scan.app_events[1].attributes, None);
    assert_eq!(scan.app_events[2].attributes, None);
    assert!(scan.issues.is_empty());
}

#[test]
fn a_broken_event_does_not_stop_the_analysis() {
    let mut events = vec![
        row("app_start1", "AppStart", "2023-01-01T10:00:10Z", "{not json", ""),
        row("dict_lookup1", "DictionaryLookup", "yesterday", "{}", ""),
    ];
    events.extend(session_rows("2023-01-01T10:00:00Z", "2023-01-01T10:10:00Z"));
    let scan = scan_events(&events, ParseOption::All);
    assert_eq!(scan.issues.len(), 2);
    assert_eq!(scan.issues[0].index, 0);
    assert!(matches!(scan.issues[0].kind, IssueKind::Decode(_)));
    assert_eq!(scan.issues[1].index, 1);
    let analysis = Parser::parse_correlated(scan, &Vec::new());
    assert_eq!(analysis.sessions.len(), 1);
}
