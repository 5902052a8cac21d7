//! The session reconstructor: one pass over the log that pairs open and leave
//! events into reading sessions and collects the other events by kind.
//!
//! The pass carries one piece of state, the session under construction. What
//! it does with each event is stated once, over the views of the records, by
//! [`ScanState::step`]; [`scan_events`] is proved to follow it event by event.

use crate::decode::{
    decode_event, decoded, DecodedEvent, DecodedView, LeaveContentMetrics, Payload, PayloadView,
    ReadingAttributesView, ReadingSessionAttributes,
};
use crate::error::{EventIssue, IssueKind, ParseError};
use crate::event::{EventKind, RawEvent, RawEventView};
use crate::model::app_event::{AppEvent, AppEventView};
use crate::model::book::{Book, BookView};
use crate::model::brightness::{BrightnessEvent, BrightnessEventView};
use crate::model::dictionary::{DictionaryWord, DictionaryWordView};
use crate::model::session::{ReadingSession, ReadingSessionView, ReadingSessions};
use crate::parser::ParseOption;
use crate::seqs::{copy_text, lemma_views_push, views};
use crate::text::text_equals;
use crate::time::Timestamp;
use vstd::prelude::*;

verus! {

/// A looked-up word with the instant of the lookup. The word carries the
/// identifier of the session that was open at that instant, if one was.
#[derive(Debug)]
pub struct TimedDictionaryWord {
    pub timestamp: Timestamp,
    pub word: DictionaryWord,
}

/// A [`TimedDictionaryWord`] over the view of its word.
pub struct TimedWordView {
    pub timestamp: Timestamp,
    pub word: DictionaryWordView,
}

impl View for TimedDictionaryWord {
    type V = TimedWordView;

    open spec fn view(&self) -> TimedWordView {
        TimedWordView { timestamp: self.timestamp, word: self.word@ }
    }
}

/// What one pass over the log has found.
#[derive(Debug)]
pub struct EventScan {
    /// The completed sessions, in the order of their leave events.
    pub sessions: ReadingSessions,
    pub dictionary: Vec<TimedDictionaryWord>,
    pub brightness: Vec<BrightnessEvent>,
    pub natural_light: Vec<BrightnessEvent>,
    pub app_events: Vec<AppEvent>,
    /// The volumes that an open or a leave event names without giving a
    /// title, each once, in the order of their first event.
    pub volume_ids: Vec<String>,
    /// The books that an open or a leave event describes by title and author
    /// without naming a volume, one for each title, in the order of their
    /// first event.
    pub event_books: Vec<Book>,
    /// The events that were passed over, in the order of the log.
    pub issues: Vec<EventIssue>,
}

/// An [`EventScan`] over the views of its records.
pub struct ScanView {
    pub sessions: Seq<ReadingSessionView>,
    pub dictionary: Seq<TimedWordView>,
    pub brightness: Seq<BrightnessEventView>,
    pub natural_light: Seq<BrightnessEventView>,
    pub app_events: Seq<AppEventView>,
    pub volume_ids: Seq<Seq<char>>,
    pub event_books: Seq<BookView>,
    pub issues: Seq<EventIssue>,
}

impl View for EventScan {
    type V = ScanView;

    open spec fn view(&self) -> ScanView {
        ScanView {
            sessions: self.sessions@,
            dictionary: views(self.dictionary@),
            brightness: views(self.brightness@),
            natural_light: views(self.natural_light@),
            app_events: views(self.app_events@),
            volume_ids: views(self.volume_ids@),
            event_books: views(self.event_books@),
            issues: self.issues@,
        }
    }
}

/// Whether a book with the title `title` is among `books`.
pub open spec fn has_title(books: Seq<BookView>, title: Seq<char>) -> bool {
    exists|i: int| 0 <= i < books.len() && (#[trigger] books[i]).title == title
}

/// The book that an event describes by itself: no size and no identifier.
pub open spec fn event_book(title: Seq<char>, author: Seq<char>) -> BookView {
    BookView { authors: author, title, size: None, book_id: Seq::empty() }
}

/// The books that events describe by themselves, after one more open or leave
/// event. An event with a title and an author but no volume describes a book,
/// which is kept unless a book of that title is known.
pub open spec fn noted_books(books: Seq<BookView>, attributes: ReadingAttributesView) -> Seq<
    BookView,
> {
    match (attributes.volumeid, attributes.title, attributes.author) {
        (None, Some(title), Some(author)) => if has_title(books, title) {
            books
        } else {
            books.push(event_book(title, author))
        },
        _ => books,
    }
}

/// The volumes to look up, after one more open or leave event. An event with
/// a volume but no title names a volume to look up, which is kept unless it is
/// known.
pub open spec fn noted_volumes(volumes: Seq<Seq<char>>, attributes: ReadingAttributesView) -> Seq<
    Seq<char>,
> {
    match (attributes.volumeid, attributes.title) {
        (Some(volume), None) => if volumes.contains(volume) {
            volumes
        } else {
            volumes.push(volume)
        },
        _ => volumes,
    }
}

/// The view of a session that may be there.
pub open spec fn session_view(session: Option<ReadingSession>) -> Option<ReadingSessionView> {
    match session {
        Some(session) => Some(session@),
        None => None,
    }
}

/// The state of the pass between two events: the session under construction,
/// and what has been found so far.
pub struct ScanState {
    pub current: Option<ReadingSessionView>,
    pub found: ScanView,
}

impl ScanState {
    /// The state before the first event.
    pub open spec fn initial() -> ScanState {
        ScanState {
            current: None,
            found: ScanView {
                sessions: Seq::empty(),
                dictionary: Seq::empty(),
                brightness: Seq::empty(),
                natural_light: Seq::empty(),
                app_events: Seq::empty(),
                volume_ids: Seq::empty(),
                event_books: Seq::empty(),
                issues: Seq::empty(),
            },
        }
    }

    /// The state with one more issue.
    pub open spec fn with_issue(self, index: int, kind: IssueKind) -> ScanState {
        ScanState {
            found: ScanView {
                issues: self.found.issues.push(EventIssue { index: index as usize, kind }),
                ..self.found
            },
            ..self
        }
    }

    /// The state after the book of an open or a leave event was noted.
    pub open spec fn with_book(self, attributes: ReadingAttributesView) -> ScanState {
        ScanState {
            found: ScanView {
                volume_ids: noted_volumes(self.found.volume_ids, attributes),
                event_books: noted_books(self.found.event_books, attributes),
                ..self.found
            },
            ..self
        }
    }

    /// The state after an open event: a new session is under construction,
    /// whatever was before.
    pub open spec fn opened(
        self,
        fresh: u128,
        id: Seq<char>,
        at: Timestamp,
        attributes: ReadingAttributesView,
    ) -> ScanState {
        ScanState {
            current: Some(
                ReadingSessionView::opened(
                    fresh,
                    at,
                    attributes.progress_value(),
                    attributes.title,
                    attributes.volumeid,
                    id,
                ),
            ),
            ..self
        }
    }

    /// The state after a leave event. With no session open, or with values
    /// that cannot complete the open one, the event is an issue and the state
    /// is otherwise kept. Else the open session is completed and emitted, and
    /// no session is open.
    pub open spec fn left(
        self,
        index: int,
        id: Seq<char>,
        at: Timestamp,
        attributes: ReadingAttributesView,
        metrics: LeaveContentMetrics,
    ) -> ScanState {
        match self.current {
            None => self.with_issue(index, IssueKind::Sequence),
            Some(session) => if session.completion_error(at, attributes.progress_value())
                is Some {
                self.with_issue(index, IssueKind::Sequence)
            } else {
                ScanState {
                    current: None,
                    found: ScanView {
                        sessions: self.found.sessions.push(
                            session.completed(
                                at,
                                attributes.progress_value(),
                                metrics.button_press_count,
                                metrics.seconds_read,
                                metrics.pages_turned,
                                id,
                            ),
                        ),
                        ..self.found
                    },
                }
            },
        }
    }

    /// The identifier that the session under construction got, and 0 where
    /// none is under construction.
    pub open spec fn newest_id(self) -> u128 {
        match self.current {
            Some(session) => session.id,
            None => 0,
        }
    }

    /// The identifier of the session under construction.
    pub open spec fn open_session(self) -> Option<u128> {
        match self.current {
            Some(session) => Some(session.id),
            None => None,
        }
    }

    /// The state after a decoded event: the event at place `index` of the
    /// log, with the row identifier `id`. `fresh` is the identifier that a
    /// session gets if the event opens one.
    pub open spec fn apply(
        self,
        index: int,
        id: Seq<char>,
        event: DecodedView,
        fresh: u128,
    ) -> ScanState {
        match event.payload {
            PayloadView::Open(attributes) => self.with_book(attributes).opened(
                fresh,
                id,
                event.timestamp,
                attributes,
            ),
            PayloadView::Leave(attributes, metrics) => self.with_book(attributes).left(
                index,
                id,
                event.timestamp,
                attributes,
                metrics,
            ),
            PayloadView::Dictionary(attributes) => ScanState {
                found: ScanView {
                    dictionary: self.found.dictionary.push(
                        TimedWordView {
                            timestamp: event.timestamp,
                            word: DictionaryWordView {
                                term: attributes.word,
                                lang: attributes.lang,
                                session_id: self.open_session(),
                            },
                        },
                    ),
                    ..self.found
                },
                ..self
            },
            PayloadView::Brightness(brightness) => ScanState {
                found: ScanView {
                    brightness: self.found.brightness.push(
                        BrightnessEventView { brightness, timestamp: event.timestamp },
                    ),
                    ..self.found
                },
                ..self
            },
            PayloadView::NaturalLight(brightness) => ScanState {
                found: ScanView {
                    natural_light: self.found.natural_light.push(
                        BrightnessEventView { brightness, timestamp: event.timestamp },
                    ),
                    ..self.found
                },
                ..self
            },
            PayloadView::App(kind, attributes) => ScanState {
                found: ScanView {
                    app_events: self.found.app_events.push(
                        AppEventView { kind, timestamp: event.timestamp, attributes },
                    ),
                    ..self.found
                },
                ..self
            },
            PayloadView::Unknown => self.with_issue(index, IssueKind::UnknownKind),
        }
    }

    /// The state after the row at place `index` of the log. A row of unknown
    /// kind is an issue. A row of a kind that `option` does not select is
    /// passed over in silence. A row that cannot be decoded is an issue and
    /// changes nothing else. Any other row is applied.
    pub open spec fn step(
        self,
        option: ParseOption,
        index: int,
        event: RawEventView,
        fresh: u128,
    ) -> ScanState {
        if event.kind == EventKind::Unknown {
            self.with_issue(index, IssueKind::UnknownKind)
        } else if !option.selects(event.kind) {
            self
        } else {
            match decoded(event) {
                Err(e) => self.with_issue(index, IssueKind::Decode(e)),
                Ok(event_read) => self.apply(index, event.id, event_read, fresh),
            }
        }
    }
}

/// The application event that a row gives to a pass: the row has to be of a
/// kind that `option` selects, and has to decode to an application event.
pub open spec fn app_event_of(option: ParseOption, event: RawEventView) -> Option<AppEventView> {
    if event.kind == EventKind::Unknown || !option.selects(event.kind) {
        None
    } else {
        match decoded(event) {
            Ok(event_read) => match event_read.payload {
                PayloadView::App(kind, attributes) => Some(
                    AppEventView { kind, timestamp: event_read.timestamp, attributes },
                ),
                _ => None,
            },
            Err(_) => None,
        }
    }
}

/// The application events of a log, one for each row that gives one, in the
/// order of the rows.
pub open spec fn app_rows(events: Seq<RawEventView>, option: ParseOption) -> Seq<AppEventView>
    decreases events.len(),
{
    if events.len() == 0 {
        Seq::empty()
    } else {
        match app_event_of(option, events.last()) {
            Some(event) => app_rows(events.drop_last(), option).push(event),
            None => app_rows(events.drop_last(), option),
        }
    }
}

/// The state after all of `events`, where the session that the event at
/// place `i` opens, if it opens one, gets the identifier `ids[i]`.
pub open spec fn scan(events: Seq<RawEventView>, option: ParseOption, ids: Seq<u128>) -> ScanState
    decreases events.len(),
{
    if events.len() == 0 {
        ScanState::initial()
    } else {
        scan(events.drop_last(), option, ids.drop_last()).step(
            option,
            events.len() - 1,
            events.last(),
            ids.last(),
        )
    }
}

/// Whether a book with the title `title` is among `books`.
fn knows_title(books: &Vec<Book>, title: &str) -> (r: bool)
    ensures
        r == has_title(views(books@), title@),
{
    let mut i: usize = 0;
    while i < books.len()
        invariant
            i <= books@.len(),
            forall|k: int| 0 <= k < i ==> (#[trigger] views(books@)[k]).title != title@,
        decreases books@.len() - i,
    {
        if text_equals(books[i].title.as_str(), title) {
            assert(views(books@)[i as int].title == title@);
            return true;
        }
        i += 1;
    }
    false
}

/// Whether the volume `volume` is among `volumes`.
fn knows_volume(volumes: &Vec<String>, volume: &str) -> (r: bool)
    ensures
        r == views(volumes@).contains(volume@),
{
    let mut i: usize = 0;
    while i < volumes.len()
        invariant
            i <= volumes@.len(),
            forall|k: int| 0 <= k < i ==> (#[trigger] views(volumes@)[k]) != volume@,
        decreases volumes@.len() - i,
    {
        if text_equals(volumes[i].as_str(), volume) {
            assert(views(volumes@)[i as int] == volume@);
            return true;
        }
        i += 1;
    }
    false
}

/// Notes the book of an open or a leave event: the book that it describes, or
/// the volume that it names for a later lookup.
pub fn note_book(
    attributes: &ReadingSessionAttributes,
    volume_ids: &mut Vec<String>,
    event_books: &mut Vec<Book>,
)
    ensures
        views(final(volume_ids)@) == noted_volumes(views(old(volume_ids)@), attributes@),
        views(final(event_books)@) == noted_books(views(old(event_books)@), attributes@),
{
    match (&attributes.volumeid, &attributes.title, &attributes.author) {
        (None, Some(title), Some(author)) => {
            if !knows_title(event_books, title.as_str()) {
                let book = Book::new(author.clone(), title.clone(), None, String::new());
                proof {
                    lemma_views_push(event_books@, book);
                }
                event_books.push(book);
            }
        },
        (Some(volume), None, _) => {
            if !knows_volume(volume_ids, volume.as_str()) {
                let volume = volume.clone();
                proof {
                    lemma_views_push(volume_ids@, volume);
                }
                volume_ids.push(volume);
            }
        },
        _ => {},
    }
}

/// One step of the session state machine. An open event puts a new session
/// under construction, under a fresh identifier, whatever was there before. A
/// leave event with its metrics completes the session under construction and
/// hands it out; where no session is open, the metrics are missing or the
/// values cannot complete the session, it fails and leaves the state as it
/// was. An event of another kind is passed over: it is no error, hands out
/// no session and changes nothing.
pub fn handle_reading_session_event(
    kind: EventKind,
    event_id: &str,
    current_session: &mut Option<ReadingSession>,
    ts: Timestamp,
    progress: u8,
    attr: &ReadingSessionAttributes,
    metrics: Option<LeaveContentMetrics>,
) -> (r: Result<Option<ReadingSession>, ParseError>)
    ensures
        match kind {
            EventKind::OpenContent => {
                &&& r matches Ok(None)
                &&& *final(current_session) matches Some(session)
                &&& session@ == ReadingSessionView::opened(
                    session.id,
                    ts,
                    progress,
                    attr@.title,
                    attr@.volumeid,
                    event_id@,
                )
            },
            EventKind::LeaveContent => match (*old(current_session), metrics) {
                (Some(session), Some(counters)) => if session@.completion_error(ts, progress)
                    is None {
                    &&& r matches Ok(Some(done))
                    &&& done@ == session@.completed(
                        ts,
                        progress,
                        counters.button_press_count,
                        counters.seconds_read,
                        counters.pages_turned,
                        event_id@,
                    )
                    &&& *final(current_session) is None
                } else {
                    &&& r matches Err(ParseError::SessionCompletionFailed)
                    &&& *final(current_session) == *old(current_session)
                },
                _ => {
                    &&& r matches Err(ParseError::SessionCompletionFailed)
                    &&& *final(current_session) == *old(current_session)
                },
            },
            _ => {
                &&& r matches Ok(None)
                &&& *final(current_session) == *old(current_session)
            },
        },
{
    match kind {
        EventKind::OpenContent => {
            *current_session = Some(
                ReadingSession::new(
                    ts,
                    progress,
                    copy_text(&attr.title),
                    copy_text(&attr.volumeid),
                    event_id.to_owned(),
                ),
            );
            Ok(None)
        },
        EventKind::LeaveContent => {
            let counters = match metrics {
                Some(counters) => counters,
                None => {
                    return Err(ParseError::SessionCompletionFailed);
                },
            };
            let mut session = match current_session.take() {
                Some(session) => session,
                None => {
                    return Err(ParseError::SessionCompletionFailed);
                },
            };
            match session.complete_session(
                ts,
                progress,
                counters.button_press_count,
                counters.seconds_read,
                counters.pages_turned,
                event_id.to_owned(),
            ) {
                Ok(()) => Ok(Some(session)),
                Err(_) => {
                    *current_session = Some(session);
                    Err(ParseError::SessionCompletionFailed)
                },
            }
        },
        _ => Ok(None),
    }
}

/// A pass over a log that is under way: the session under construction, and
/// what has been found so far.
#[derive(Debug)]
pub struct ScanProgress {
    pub current: Option<ReadingSession>,
    pub found: EventScan,
}

impl View for ScanProgress {
    type V = ScanState;

    open spec fn view(&self) -> ScanState {
        ScanState { current: session_view(self.current), found: self.found@ }
    }
}

impl ScanProgress {
    /// A pass before its first event.
    pub fn new() -> (r: Self)
        ensures
            r@ == ScanState::initial(),
    {
        let r = ScanProgress {
            current: None,
            found: EventScan {
                sessions: ReadingSessions::new(),
                dictionary: Vec::new(),
                brightness: Vec::new(),
                natural_light: Vec::new(),
                app_events: Vec::new(),
                volume_ids: Vec::new(),
                event_books: Vec::new(),
                issues: Vec::new(),
            },
        };
        proof {
            assert(r@.found.dictionary =~= Seq::empty());
            assert(r@.found.brightness =~= Seq::empty());
            assert(r@.found.natural_light =~= Seq::empty());
            assert(r@.found.app_events =~= Seq::empty());
            assert(r@.found.volume_ids =~= Seq::empty());
            assert(r@.found.event_books =~= Seq::empty());
            assert(r@.found.issues =~= Seq::empty());
        }
        r
    }

    /// Notes that the event at place `index` was passed over.
    pub fn report(&mut self, index: usize, kind: IssueKind)
        ensures
            final(self)@ == old(self)@.with_issue(index as int, kind),
    {
        self.found.issues.push(EventIssue { index, kind });
    }

    /// Applies the decoded event at place `index` of the log, whose row has
    /// the identifier `id`. A session that the event opens gets a fresh random
    /// identifier, which is then that of the session under construction.
    pub fn apply(&mut self, index: usize, id: &str, event: DecodedEvent)
        ensures
            final(self)@ == old(self)@.apply(index as int, id@, event@, final(self)@.newest_id()),
    {
        let ts = event.timestamp;
        match event.payload {
            Payload::Open(attr) => {
                note_book(&attr, &mut self.found.volume_ids, &mut self.found.event_books);
                let progress = attr.progress_value();
                let _ = handle_reading_session_event(
                    EventKind::OpenContent,
                    id,
                    &mut self.current,
                    ts,
                    progress,
                    &attr,
                    None,
                );
            },
            Payload::Leave(attr, metrics) => {
                note_book(&attr, &mut self.found.volume_ids, &mut self.found.event_books);
                let progress = attr.progress_value();
                match handle_reading_session_event(
                    EventKind::LeaveContent,
                    id,
                    &mut self.current,
                    ts,
                    progress,
                    &attr,
                    Some(metrics),
                ) {
                    Ok(Some(session)) => {
                        self.found.sessions.add_session(session);
                    },
                    Ok(None) => {},
                    Err(_) => {
                        self.found.issues.push(EventIssue { index, kind: IssueKind::Sequence });
                    },
                }
            },
            Payload::Dictionary(attr) => {
                let open_session = match &self.current {
                    Some(session) => Some(session.id),
                    None => None,
                };
                let word = TimedDictionaryWord {
                    timestamp: ts,
                    word: DictionaryWord::new(attr.word, attr.lang, open_session),
                };
                proof {
                    lemma_views_push(self.found.dictionary@, word);
                }
                self.found.dictionary.push(word);
            },
            Payload::Brightness(level) => {
                let change = BrightnessEvent::new(level, ts);
                proof {
                    lemma_views_push(self.found.brightness@, change);
                }
                self.found.brightness.push(change);
            },
            Payload::NaturalLight(level) => {
                let change = BrightnessEvent::new(level, ts);
                proof {
                    lemma_views_push(self.found.natural_light@, change);
                }
                self.found.natural_light.push(change);
            },
            Payload::App(kind, attributes) => {
                let app_event = AppEvent::new(kind, ts, attributes);
                proof {
                    lemma_views_push(self.found.app_events@, app_event);
                }
                self.found.app_events.push(app_event);
            },
            Payload::Unknown => {
                self.found.issues.push(EventIssue { index, kind: IssueKind::UnknownKind });
            },
        }
    }

    /// Takes the row at place `index` of the log into the pass: decodes it
    /// and applies it, if `option` selects its kind.
    pub fn step(&mut self, option: ParseOption, index: usize, event: &RawEvent)
        ensures
            final(self)@ == old(self)@.step(option, index as int, event@, final(self)@.newest_id()),
    {
        if matches!(event.kind, EventKind::Unknown) {
            self.report(index, IssueKind::UnknownKind);
        } else if option.includes(event.kind) {
            match decode_event(event) {
                Err(e) => {
                    self.report(index, IssueKind::Decode(e));
                },
                Ok(event_read) => {
                    self.apply(index, event.id.as_str(), event_read);
                },
            }
        }
    }

    /// Ends the pass: a session that is still under construction is dropped.
    pub fn finish(self) -> (r: EventScan)
        ensures
            r@ == self@.found,
    {
        self.found
    }
}

/// One event more is one step more.
pub proof fn lemma_scan_next(
    events: Seq<RawEventView>,
    option: ParseOption,
    ids: Seq<u128>,
    fresh: u128,
    i: int,
)
    requires
        0 <= i < events.len(),
        ids.len() == i,
    ensures
        scan(events.take(i + 1), option, ids.push(fresh)) == scan(events.take(i), option, ids).step(
            option,
            i,
            events[i],
            fresh,
        ),
{
    assert(events.take(i + 1).drop_last() =~= events.take(i));
    assert(ids.push(fresh).drop_last() =~= ids);
}

/// Scans the log once, from its first event to its last: pairs open and
/// leave events into sessions and collects the other events by their kind.
/// Of the events, only those that `option` selects are read.
///
/// The result is that of [`scan`] for some choice of the identifiers of the
/// sessions; a session that is still open at the end is not part of it.
pub fn scan_events(events: &Vec<RawEvent>, option: ParseOption) -> (r: EventScan)
    ensures
        exists|ids: Seq<u128>|
            ids.len() == events@.len() && r@ == (#[trigger] scan(
                views(events@),
                option,
                ids,
            )).found,
{
    let mut progress = ScanProgress::new();
    let ghost mut ids: Seq<u128> = Seq::empty();
    let mut i: usize = 0;
    while i < events.len()
        invariant
            i <= events@.len(),
            ids.len() == i,
            progress@ == scan(views(events@).take(i as int), option, ids),
        decreases events@.len() - i,
    {
        progress.step(option, i, &events[i]);
        proof {
            lemma_scan_next(views(events@), option, ids, progress@.newest_id(), i as int);
            ids = ids.push(progress@.newest_id());
        }
        i += 1;
    }
    proof {
        assert(views(events@).take(i as int) =~= views(events@));
    }
    progress.finish()
}

} // verus!
