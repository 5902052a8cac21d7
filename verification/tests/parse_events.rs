use kobo_db_tools::{
    scan_events, AppEventKind, Book, BookEntry, EventAnalysis, EventScan, ParseOption, Parser,
    RawEvent,
};

fn row(id: &str, kind: &str, timestamp: &str, attributes: &str, metrics: &str) -> RawEvent {
    RawEvent::new(
        id.to_string(),
        kind,
        timestamp.to_string(),
        Some(attributes.to_string()),
        Some(metrics.to_string()),
    )
}

/// The rows of the `content` table, as `(ContentID, Title, Attribution, BookID)`.
type Content = [(&'static str, &'static str, &'static str, &'static str)];

/// What the library answers for the volumes that the scan asks for.
fn look_up(scan: &EventScan, content: &Content) -> Vec<BookEntry> {
    let mut found = Vec::new();
    for volume in &scan.volume_ids {
        for (content_id, title, attribution, book_id) in content {
            if volume == content_id || volume == book_id {
                found.push(BookEntry::new(
                    volume.clone(),
                    Book::new(attribution.to_string(), title.to_string(), None, book_id.to_string()),
                ));
                break;
            }
        }
    }
    found
}

/// The analysis of the rows as the query of the log hands them over: oldest
/// first, rows of one instant in the order in which they were inserted.
fn analyse(events: &Vec<RawEvent>, option: ParseOption, content: &Content) -> EventAnalysis {
    let mut events: Vec<RawEvent> = events
        .iter()
        .map(|event| {
            RawEvent::new(
                event.id.clone(),
                event.kind.tag().unwrap_or(""),
                event.timestamp.clone(),
                event.attributes.clone(),
                event.metrics.clone(),
            )
        })
        .collect();
    events.sort_by(|a, b| a.timestamp.cmp(&b.timestamp));
    let events = &events;
    let scan = scan_events(events, option);
    let books = look_up(&scan, content);
    Parser::parse_events(scan, option, &books)
}

fn sample_rows() -> Vec<RawEvent> {
    vec![
        row(
            "session1_open",
            "OpenContent",
            "2023-01-01T10:00:00Z",
            "{\"progress\":\"0\",\"volumeid\":\"book1\"}",
            "",
        ),
        row(
            "session1_leave",
            "LeaveContent",
            "2023-01-01T10:05:00Z",
            "{\"progress\":\"10\",\"volumeid\":\"book1\"}",
            "{\"ButtonPressCount\":10,\"SecondsRead\":300,\"PagesTurned\":5}",
        ),
        row(
            "dict_lookup1",
            "DictionaryLookup",
            "2023-01-01T10:01:00Z",
            "{\"Dictionary\":\"en\",\"Word\":\"test\"}",
            "",
        ),
        row(
            "brightness_adj1",
            "BrightnessAdjusted",
            "2023-01-01T10:02:00Z",
            "{\"Method\":\"manual\"}",
            "{\"NewBrightness\":50}",
        ),
        row(
            "natural_light_adj1",
            "NaturalLightAdjusted",
            "2023-01-01T10:03:00Z",
            "{\"Method\":\"auto\"}",
            "{\"NewNaturalLight\":70}",
        ),
    ]
}

fn app_rows() -> Vec<RawEvent> {
    vec![
        row("app_start1", "AppStart", "2023-01-01T09:59:00Z", "{\"app\":\"nickel\"}", ""),
        row("plugged_in1", "PluggedIn", "2023-01-01T10:04:00Z", "", ""),
    ]
}

#[test]
fn test_parse_events_all() {
    let mut events = sample_rows();
    events.extend(app_rows());
    let content: &Content = &[("book1", "Book One", "Author One", "book1")];

    let analysis = analyse(&events, ParseOption::All, content);

    assert!(analysis.sessions.is_some());
    assert_eq!(analysis.sessions.unwrap().sessions_count(), 1);

    assert!(analysis.terms.is_some());
    assert_eq!(analysis.terms.unwrap().len(), 1);

    assert!(analysis.brightness_history.is_some());
    assert_eq!(analysis.brightness_history.unwrap().events.len(), 1);

    assert!(analysis.natural_light_history.is_some());
    assert_eq!(analysis.natural_light_history.unwrap().events.len(), 1);

    assert!(analysis.books.is_some());
    assert_eq!(analysis.books.unwrap().len(), 1);

    assert!(analysis.app_events.is_some());
    let app_events = analysis.app_events.unwrap();
    assert_eq!(app_events.len(), 2);
    assert!(app_events.iter().any(|event| event.kind == AppEventKind::AppStart));
    assert!(app_events.iter().any(|event| event.kind == AppEventKind::PluggedIn));
}

#[test]
fn parser_test_parse_events_all() {
    let events = sample_rows();
    let content: &Content = &[("book1", "Book One", "Author One", "book1")];

    let analysis = analyse(&events, ParseOption::All, content);

    assert!(analysis.sessions.is_some());
    assert_eq!(analysis.sessions.unwrap().sessions_count(), 1);

    assert!(analysis.terms.is_some());
    assert_eq!(analysis.terms.unwrap().len(), 1);

    assert!(analysis.brightness_history.is_some());
    assert_eq!(analysis.brightness_history.unwrap().events.len(), 1);

    assert!(analysis.natural_light_history.is_some());
    assert_eq!(analysis.natural_light_history.unwrap().events.len(), 1);

    assert!(analysis.books.is_some());
    assert_eq!(analysis.books.unwrap().len(), 1);
}

#[test]
fn test_parse_events_reading_sessions() {
    let events = vec![
        row(
            "session1_open",
            "OpenContent",
            "2023-01-01T10:00:00Z",
            "{\"progress\":\"0\",\"volumeid\":\"book1\"}",
            "",
        ),
        row(
            "session1_leave",
            "LeaveContent",
            "2023-01-01T10:05:00Z",
            "{\"progress\":\"10\",\"volumeid\":\"book1\"}",
            "{\"ButtonPressCount\":10,\"SecondsRead\":300,\"PagesTurned\":5}",
        ),
    ];
    let content: &Content = &[("book1", "The Real Book Title", "Author One", "book1")];

    let analysis = analyse(&events, ParseOption::ReadingSessions, content);

    assert!(analysis.sessions.is_some());
    let sessions = analysis.sessions.unwrap();
    assert_eq!(sessions.sessions_count(), 1);
    let session = sessions.get_sessions().first().unwrap();
    assert_eq!(session.book_title.as_deref(), Some("The Real Book Title"));
    assert!(analysis.terms.is_none());
    assert!(analysis.brightness_history.is_none());
    assert!(analysis.natural_light_history.is_none());
    assert!(analysis.books.is_some());
    assert_eq!(analysis.books.unwrap().len(), 1);
    assert!(analysis.app_events.is_none());
}

#[test]
fn parser_test_parse_events_reading_sessions() {
    let events = vec![
        row(
            "session1_open",
            "OpenContent",
            "2023-01-01T10:00:00Z",
            "{\"progress\":\"0\",\"volumeid\":\"book1\"}",
            "",
        ),
        row(
            "session1_leave",
            "LeaveContent",
            "2023-01-01T10:05:00Z",
            "{\"progress\":\"10\",\"volumeid\":\"book1\"}",
            "{\"ButtonPressCount\":10,\"SecondsRead\":300,\"PagesTurned\":5}",
        ),
    ];
    let content: &Content = &[("book1", "The Real Book Title", "Author One", "book1")];

    let analysis = analyse(&events, ParseOption::ReadingSessions, content);

    assert!(analysis.sessions.is_some());
    let sessions = analysis.sessions.unwrap();
    assert_eq!(sessions.sessions_count(), 1);
    let session = sessions.get_sessions().get(0).unwrap();
    assert_eq!(session.book_title.as_deref(), Some("The Real Book Title"));
    assert!(analysis.terms.is_none());
    assert!(analysis.brightness_history.is_none());
    assert!(analysis.natural_light_history.is_none());
    assert!(analysis.books.is_some());
    assert_eq!(analysis.books.unwrap().len(), 1);
}

#[test]
fn test_parse_events_bookmarks() {
    let events = sample_rows();
    let content: &Content = &[("book1", "Book One", "Author One", "book1")];

    let analysis = analyse(&events, ParseOption::Bookmarks, content);

    assert!(analysis.sessions.is_none());
    assert!(analysis.terms.is_none());
    assert!(analysis.brightness_history.is_none());
    assert!(analysis.natural_light_history.is_none());
    assert!(analysis.books.is_none());
    assert!(analysis.app_events.is_none());
}

#[test]
fn parser_test_parse_events_bookmarks() {
    let events: Vec<RawEvent> = Vec::new();
    let content: &Content = &[("book1", "Book One", "Author One", "book1")];

    let analysis = analyse(&events, ParseOption::Bookmarks, content);

    assert!(analysis.sessions.is_none());
    assert!(analysis.terms.is_none());
    assert!(analysis.brightness_history.is_none());
    assert!(analysis.natural_light_history.is_none());
    assert!(analysis.books.is_none());
}

#[test]
fn test_parse_events_app_start() {
    let events = app_rows();

    let analysis = analyse(&events, ParseOption::AppStart, &[]);
    assert!(analysis.app_events.is_some());
    let app_events = analysis.app_events.unwrap();
    assert_eq!(app_events.len(), 1);
    assert_eq!(app_events[0].kind, AppEventKind::AppStart);
}

#[test]
fn test_parse_events_plugged_in() {
    let events = app_rows();

    let analysis = analyse(&events, ParseOption::PluggedIn, &[]);
    assert!(analysis.app_events.is_some());
    let app_events = analysis.app_events.unwrap();
    assert_eq!(app_events.len(), 1);
    assert_eq!(app_events[0].kind, AppEventKind::PluggedIn);
}

#[test]
fn a_part_reads_only_its_own_events() {
    let mut events = sample_rows();
    events.extend(app_rows());
    let scan = scan_events(&events, ParseOption::DictionaryLookups);
    assert_eq!(scan.sessions.sessions_count(), 0);
    assert_eq!(scan.dictionary.len(), 1);
    assert_eq!(scan.brightness.len(), 0);
    assert_eq!(scan.natural_light.len(), 0);
    assert_eq!(scan.app_events.len(), 0);
    assert!(scan.volume_ids.is_empty());
    assert!(scan.issues.is_empty());
}

#[test]
fn words_are_counted_by_term_language_and_session() {
    let lookup = |id: &str, at: &str, word: &str| {
        row(
            id,
            "DictionaryLookup",
            at,
            &format!("{{\"Dictionary\":\"en\",\"Word\":\"{}\"}}", word),
            "",
        )
    };
    let events = vec![
        lookup("d1", "2023-01-01T09:00:00Z", "alpha"),
        row(
            "session1_open",
            "OpenContent",
            "2023-01-01T10:00:00Z",
            "{\"progress\":\"0\",\"volumeid\":\"book1\"}",
            "",
        ),
        lookup("d2", "2023-01-01T10:01:00Z", "alpha"),
        lookup("d3", "2023-01-01T10:02:00Z", "beta"),
        lookup("d4", "2023-01-01T10:03:00Z", "alpha"),
        row(
            "session1_leave",
            "LeaveContent",
            "2023-01-01T10:05:00Z",
            "{\"progress\":\"10\",\"volumeid\":\"book1\"}",
            "{\"ButtonPressCount\":10,\"SecondsRead\":300,\"PagesTurned\":5}",
        ),
        lookup("d5", "2023-01-01T10:06:00Z", "alpha"),
    ];
    let analysis = analyse(&events, ParseOption::All, &[]);
    let session_id = analysis.sessions.unwrap().get_sessions()[0].id;
    let terms = analysis.terms.unwrap();
    assert_eq!(terms.len(), 3);
    assert_eq!(terms[0].word.term(), "alpha");
    assert_eq!(terms[0].word.session_id(), None);
    assert_eq!(terms[0].count, 2);
    assert_eq!(terms[1].word.term(), "alpha");
    assert_eq!(terms[1].word.session_id(), Some(session_id));
    assert_eq!(terms[1].count, 2);
    assert_eq!(terms[2].word.term(), "beta");
    assert_eq!(terms[2].word.lang(), "en");
    assert_eq!(terms[2].count, 1);
}

#[test]
fn a_book_described_by_an_event_is_kept_once() {
    let described = "{\"progress\":\"5\",\"title\":\"Loose Pages\",\"attribution\":\"A. Writer\"}";
    let events = vec![
        row("open1", "OpenContent", "2023-01-01T10:00:00Z", described, ""),
        row(
            "leave1",
            "LeaveContent",
            "2023-01-01T10:05:00Z",
            described,
            "{\"ButtonPressCount\":1,\"SecondsRead\":300,\"PagesTurned\":2}",
        ),
    ];
    let scan = scan_events(&events, ParseOption::ReadingSessions);
    assert!(scan.volume_ids.is_empty());
    assert_eq!(scan.event_books.len(), 1);
    assert_eq!(scan.event_books[0].title(), "Loose Pages");
    assert_eq!(scan.event_books[0].authors(), "A. Writer");
    assert_eq!(scan.event_books[0].size(), None);
    assert_eq!(scan.event_books[0].book_id, "");
    let analysis = Parser::parse_events(scan, ParseOption::ReadingSessions, &Vec::new());
    let sessions = analysis.sessions.unwrap();
    assert_eq!(sessions.get_sessions()[0].book_title.as_deref(), Some("Loose Pages"));
    assert_eq!(sessions.get_sessions()[0].volume_id, None);
    assert_eq!(analysis.books.unwrap().len(), 1);
}

#[test]
fn a_volume_is_asked_for_once_and_only_without_a_title() {
    let events = vec![
        row(
            "open1",
            "OpenContent",
            "2023-01-01T10:00:00Z",
            "{\"progress\":\"0\",\"volumeid\":\"book1\"}",
            "",
        ),
        row(
            "open2",
            "OpenContent",
            "2023-01-01T11:00:00Z",
            "{\"progress\":\"0\",\"volumeid\":\"book1\"}",
            "",
        ),
        row(
            "open3",
            "OpenContent",
            "2023-01-01T12:00:00Z",
            "{\"progress\":\"0\",\"volumeid\":\"book2\",\"title\":\"Known\"}",
            "",
        ),
        row(
            "open4",
            "OpenContent",
            "2023-01-01T13:00:00Z",
            "{\"progress\":\"0\",\"volumeid\":\"book3\",\"title\":null}",
            "",
        ),
    ];
    let scan = scan_events(&events, ParseOption::All);
    assert_eq!(scan.volume_ids, vec!["book1".to_string(), "book3".to_string()]);
    assert!(scan.event_books.is_empty());
    assert_eq!(scan.sessions.sessions_count(), 0);
}

#[test]
fn a_title_from_the_library_replaces_the_title_of_the_event() {
    let events = vec![
        row(
            "open1",
            "OpenContent",
            "2023-01-01T10:00:00Z",
            "{\"progress\":\"0\",\"volumeid\":\"book1\",\"title\":\"Working Title\"}",
            "",
        ),
        row(
            "leave1",
            "LeaveContent",
            "2023-01-01T10:05:00Z",
            "{\"progress\":\"10\",\"volumeid\":\"book1\"}",
            "{\"ButtonPressCount\":1,\"SecondsRead\":300,\"PagesTurned\":2}",
        ),
        row(
            "open2",
            "OpenContent",
            "2023-01-01T11:00:00Z",
            "{\"progress\":\"0\",\"volumeid\":\"book9\",\"title\":\"Kept Title\"}",
            "",
        ),
        row(
            "leave2",
            "LeaveContent",
            "2023-01-01T11:05:00Z",
            "{\"progress\":\"10\",\"volumeid\":\"book9\",\"title\":\"Kept Title\"}",
            "{\"ButtonPressCount\":1,\"SecondsRead\":300,\"PagesTurned\":2}",
        ),
    ];
    let content: &Content = &[("book1", "Final Title", "Author One", "book1")];
    let analysis = analyse(&events, ParseOption::ReadingSessions, content);
    let sessions = analysis.sessions.unwrap();
    assert_eq!(sessions.get_sessions()[0].book_title.as_deref(), Some("Final Title"));
    assert_eq!(sessions.get_sessions()[1].book_title.as_deref(), Some("Kept Title"));
}
