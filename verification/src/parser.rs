//! What to read from a log, and the query that asks the log for it.

use crate::activity::{all_app_events, app_start_days, collect_app_events, count_app_starts_by_day};
use crate::correlate::{correlate, correlated, orphaned, AuxiliaryView, TOLERANCE_SECONDS};
use crate::cycles::{build_charge_cycles, charge_cycles};
use crate::event::EventKind;
use crate::laws::law_daily_starts_of_all;
use crate::model::app_event::{AppEvent, AppEventView};
use crate::model::book::{Book, BookEntry, BookEntryView, BookView};
use crate::model::brightness::{BrightnessEventView, BrightnessHistory, NaturalLightHistory};
use crate::model::correlated::{CorrelatedAnalysis, CorrelatedAnalysisView};
use crate::model::session::{ReadingSessionView, ReadingSessions};
use crate::reconstruct::{EventScan, ScanView};
use crate::seqs::views;
use crate::terms::{count_terms, term_counts, TermCount, TermCountView};
use crate::titles::{all_titled, merge_books, merged_books, resolve_titles};
use vstd::prelude::*;
use vstd::string::StringExecFns;

verus! {

/// The part of a log that an analysis asks for.
#[derive(Clone, Copy, Debug, PartialEq, Eq, Structural)]
pub enum ParseOption {
    All,
    ReadingSessions,
    DictionaryLookups,
    BrightnessHistory,
    NaturalLightHistory,
    Bookmarks,
    AppStart,
    PluggedIn,
}

impl ParseOption {
    /// Whether events of kind `kind` belong to the part.
    pub open spec fn selects(self, kind: EventKind) -> bool {
        match self {
            ParseOption::All => kind != EventKind::Unknown,
            ParseOption::ReadingSessions => kind == EventKind::OpenContent || kind
                == EventKind::LeaveContent,
            ParseOption::DictionaryLookups => kind == EventKind::DictionaryLookup,
            ParseOption::BrightnessHistory => kind == EventKind::BrightnessAdjusted,
            ParseOption::NaturalLightHistory => kind == EventKind::NaturalLightAdjusted,
            ParseOption::Bookmarks => false,
            ParseOption::AppStart => kind == EventKind::AppStart,
            ParseOption::PluggedIn => kind == EventKind::PluggedIn,
        }
    }

    /// The kinds of the part, in the order in which the query names them.
    pub open spec fn kinds(self) -> Seq<EventKind> {
        match self {
            ParseOption::All => seq![
                EventKind::OpenContent,
                EventKind::LeaveContent,
                EventKind::DictionaryLookup,
                EventKind::BrightnessAdjusted,
                EventKind::NaturalLightAdjusted,
                EventKind::AppStart,
                EventKind::PluggedIn,
            ],
            ParseOption::ReadingSessions => seq![EventKind::OpenContent, EventKind::LeaveContent],
            ParseOption::DictionaryLookups => seq![EventKind::DictionaryLookup],
            ParseOption::BrightnessHistory => seq![EventKind::BrightnessAdjusted],
            ParseOption::NaturalLightHistory => seq![EventKind::NaturalLightAdjusted],
            ParseOption::AppStart => seq![EventKind::AppStart],
            ParseOption::PluggedIn => seq![EventKind::PluggedIn],
            ParseOption::Bookmarks => seq![],
        }
    }

    /// Whether events of kind `kind` belong to the part.
    pub fn includes(&self, kind: EventKind) -> (r: bool)
        ensures
            r == self.selects(kind),
    {
        match self {
            ParseOption::All => !matches!(kind, EventKind::Unknown),
            ParseOption::ReadingSessions => matches!(
                kind,
                EventKind::OpenContent | EventKind::LeaveContent
            ),
            ParseOption::DictionaryLookups => matches!(kind, EventKind::DictionaryLookup),
            ParseOption::BrightnessHistory => matches!(kind, EventKind::BrightnessAdjusted),
            ParseOption::NaturalLightHistory => matches!(kind, EventKind::NaturalLightAdjusted),
            ParseOption::Bookmarks => false,
            ParseOption::AppStart => matches!(kind, EventKind::AppStart),
            ParseOption::PluggedIn => matches!(kind, EventKind::PluggedIn),
        }
    }
}

/// The `Type` values that the query for a part names.
pub fn event_types_for_option(option: ParseOption) -> (r: Vec<&'static str>)
    ensures
        r@.len() == option.kinds().len(),
        forall|i: int|
            0 <= i < r@.len() ==> option.kinds()[i].tag_text() == Some((#[trigger] r@[i])@),
{
    match option {
        ParseOption::All => vec![
            "OpenContent",
            "LeaveContent",
            "DictionaryLookup",
            "BrightnessAdjusted",
            "NaturalLightAdjusted",
            "AppStart",
            "PluggedIn",
        ],
        ParseOption::ReadingSessions => vec!["OpenContent", "LeaveContent"],
        ParseOption::DictionaryLookups => vec!["DictionaryLookup"],
        ParseOption::BrightnessHistory => vec!["BrightnessAdjusted"],
        ParseOption::NaturalLightHistory => vec!["NaturalLightAdjusted"],
        ParseOption::AppStart => vec!["AppStart"],
        ParseOption::PluggedIn => vec!["PluggedIn"],
        ParseOption::Bookmarks => Vec::new(),
    }
}

/// `n` question marks, separated by a comma and a space.
pub open spec fn placeholders(n: nat) -> Seq<char>
    decreases n,
{
    if n == 0 {
        Seq::empty()
    } else if n == 1 {
        "?"@
    } else {
        placeholders((n - 1) as nat) + ", ?"@
    }
}

/// The query for the events of `n` types, oldest first, with one parameter
/// for each type.
pub open spec fn event_query(n: nat) -> Seq<char> {
    "SELECT Id, Type, Timestamp, Attributes, Metrics FROM AnalyticsEvents WHERE Type IN ("@
        + placeholders(n) + ") ORDER BY Timestamp ASC;"@
}

/// The SQL text that asks the log for the events of `event_types_len` types.
pub fn build_event_query(event_types_len: usize) -> (r: String)
    ensures
        r@ == event_query(event_types_len as nat),
{
    let mut query = String::from_str(
        "SELECT Id, Type, Timestamp, Attributes, Metrics FROM AnalyticsEvents WHERE Type IN (",
    );
    let ghost head = query@;
    let mut i: usize = 0;
    while i < event_types_len
        invariant
            i <= event_types_len,
            query@ == head + placeholders(i as nat),
        decreases event_types_len - i,
    {
        if i == 0 {
            query.append("?");
        } else {
            query.append(", ?");
        }
        i += 1;
    }
    query.append(") ORDER BY Timestamp ASC;");
    query
}

/// What an analysis of a part of the log gives: each field is there if the
/// part asks for it.
#[derive(Debug)]
pub struct EventAnalysis {
    pub sessions: Option<ReadingSessions>,
    pub terms: Option<Vec<TermCount>>,
    pub brightness_history: Option<BrightnessHistory>,
    pub natural_light_history: Option<NaturalLightHistory>,
    pub books: Option<Vec<Book>>,
    pub app_events: Option<Vec<AppEvent>>,
}

impl Default for EventAnalysis {
    fn default() -> (r: Self)
        ensures
            r@ == (EventAnalysisView {
                sessions: None,
                terms: None,
                brightness_history: None,
                natural_light_history: None,
                books: None,
                app_events: None,
            }),
    {
        EventAnalysis {
            sessions: None,
            terms: None,
            brightness_history: None,
            natural_light_history: None,
            books: None,
            app_events: None,
        }
    }
}

/// An [`EventAnalysis`] over the views of its records.
pub struct EventAnalysisView {
    pub sessions: Option<Seq<ReadingSessionView>>,
    pub terms: Option<Seq<TermCountView>>,
    pub brightness_history: Option<Seq<BrightnessEventView>>,
    pub natural_light_history: Option<Seq<BrightnessEventView>>,
    pub books: Option<Seq<BookView>>,
    pub app_events: Option<Seq<AppEventView>>,
}

impl View for EventAnalysis {
    type V = EventAnalysisView;

    open spec fn view(&self) -> EventAnalysisView {
        EventAnalysisView {
            sessions: match self.sessions {
                Some(sessions) => Some(sessions@),
                None => None,
            },
            terms: match self.terms {
                Some(terms) => Some(views(terms@)),
                None => None,
            },
            brightness_history: match self.brightness_history {
                Some(history) => Some(history@),
                None => None,
            },
            natural_light_history: match self.natural_light_history {
                Some(history) => Some(history@),
                None => None,
            },
            books: match self.books {
                Some(books) => Some(views(books@)),
                None => None,
            },
            app_events: match self.app_events {
                Some(events) => Some(views(events@)),
                None => None,
            },
        }
    }
}

/// `value` if `wanted`, else nothing.
pub open spec fn only_if<T>(wanted: bool, value: T) -> Option<T> {
    if wanted {
        Some(value)
    } else {
        None
    }
}

/// The analysis of the part `option` of a log, from what a scan of the log
/// has found and what the library of the device answered for its volumes.
/// A part without events gives nothing. Any other part gives the books of the
/// log and, as far as it selects their events: the sessions with their titles
/// filled in, the looked-up words with their counts, the two light histories,
/// and the application events.
pub open spec fn event_analysis(
    scan: ScanView,
    option: ParseOption,
    books: Seq<BookEntryView>,
) -> EventAnalysisView {
    if option.kinds().len() == 0 {
        EventAnalysisView {
            sessions: None,
            terms: None,
            brightness_history: None,
            natural_light_history: None,
            books: None,
            app_events: None,
        }
    } else {
        EventAnalysisView {
            sessions: only_if(
                option.selects(EventKind::OpenContent),
                all_titled(scan.sessions, books, scan.event_books),
            ),
            terms: only_if(
                option.selects(EventKind::DictionaryLookup),
                term_counts(scan.dictionary),
            ),
            brightness_history: only_if(
                option.selects(EventKind::BrightnessAdjusted),
                scan.brightness,
            ),
            natural_light_history: only_if(
                option.selects(EventKind::NaturalLightAdjusted),
                scan.natural_light,
            ),
            books: Some(merged_books(books, scan.event_books)),
            app_events: only_if(
                option.selects(EventKind::AppStart) || option.selects(EventKind::PluggedIn),
                scan.app_events,
            ),
        }
    }
}

/// The correlated analysis of a log, from what a scan of the log has found
/// and what the library of the device answered for its volumes: the sessions
/// get their titles; each auxiliary event goes to the first session whose
/// interval, widened by `tolerance` seconds, holds it, or to the orphans; the
/// application events of the whole log, those of the sessions first, give the
/// charge cycles and the starts of the application by day.
pub open spec fn correlated_analysis(
    scan: ScanView,
    books: Seq<BookEntryView>,
    tolerance: nat,
) -> CorrelatedAnalysisView {
    let sessions = all_titled(scan.sessions, books, scan.event_books);
    let events = AuxiliaryView {
        dictionary: scan.dictionary,
        brightness: scan.brightness,
        natural_light: scan.natural_light,
        app_events: scan.app_events,
    };
    let with_events = correlated(sessions, events, tolerance);
    let orphans = orphaned(sessions, events, tolerance);
    let app_events = all_app_events(with_events, orphans.app_events);
    CorrelatedAnalysisView {
        sessions: with_events,
        orphans,
        cycles: charge_cycles(with_events, app_events),
        app_start_counts_by_day: app_start_days(app_events),
    }
}

/// The analyses of a log.
pub struct Parser;

impl Parser {
    /// The analysis of the part `option` of a log. `scan` is what
    /// [`crate::reconstruct::scan_events`] found in the log; `books` is what
    /// the library of the device answered for `scan.volume_ids`.
    pub fn parse_events(scan: EventScan, option: ParseOption, books: &Vec<BookEntry>) -> (r:
        EventAnalysis)
        ensures
            r@ == event_analysis(scan@, option, views(books@)),
    {
        if matches!(option, ParseOption::Bookmarks) {
            return EventAnalysis::default();
        }
        let EventScan {
            sessions,
            dictionary,
            brightness,
            natural_light,
            app_events,
            volume_ids: _,
            event_books,
            issues: _,
        } = scan;
        let all_books = merge_books(books, &event_books);
        let sessions = if option.includes(EventKind::OpenContent) {
            proof {
                sessions.lemma_view();
            }
            let mut list = sessions.into_sessions();
            resolve_titles(&mut list, books, &event_books);
            Some(ReadingSessions::from_sessions(list))
        } else {
            None
        };
        let terms = if option.includes(EventKind::DictionaryLookup) {
            Some(count_terms(&dictionary))
        } else {
            None
        };
        let brightness_history = if option.includes(EventKind::BrightnessAdjusted) {
            Some(BrightnessHistory { events: brightness })
        } else {
            None
        };
        let natural_light_history = if option.includes(EventKind::NaturalLightAdjusted) {
            Some(NaturalLightHistory { events: natural_light })
        } else {
            None
        };
        let app_events = if option.includes(EventKind::AppStart) || option.includes(
            EventKind::PluggedIn,
        ) {
            Some(app_events)
        } else {
            None
        };
        EventAnalysis {
            sessions,
            terms,
            brightness_history,
            natural_light_history,
            books: Some(all_books),
            app_events,
        }
    }

    /// The correlated analysis of a log, with the tolerance of
    /// [`TOLERANCE_SECONDS`]. `scan` is what
    /// [`crate::reconstruct::scan_events`] found in the whole log; `books` is
    /// what the library of the device answered for `scan.volume_ids`.
    ///
    /// The starts of the application by day count every application event
    /// that the scan found, whether it went to a session or to the orphans.
    pub fn parse_correlated(scan: EventScan, books: &Vec<BookEntry>) -> (r: CorrelatedAnalysis)
        ensures
            r@ == correlated_analysis(scan@, views(books@), TOLERANCE_SECONDS as nat),
            r@.app_start_counts_by_day == app_start_days(scan@.app_events),
    {
        Self::parse_correlated_within(scan, books, TOLERANCE_SECONDS)
    }

    /// The correlated analysis of a log with a tolerance of `tolerance`
    /// seconds.
    pub fn parse_correlated_within(scan: EventScan, books: &Vec<BookEntry>, tolerance: u64) -> (r:
        CorrelatedAnalysis)
        ensures
            r@ == correlated_analysis(scan@, views(books@), tolerance as nat),
            r@.app_start_counts_by_day == app_start_days(scan@.app_events),
    {
        proof {
            law_daily_starts_of_all(
                all_titled(scan@.sessions, views(books@), scan@.event_books),
                AuxiliaryView {
                    dictionary: scan@.dictionary,
                    brightness: scan@.brightness,
                    natural_light: scan@.natural_light,
                    app_events: scan@.app_events,
                },
                tolerance as nat,
            );
        }
        let EventScan {
            sessions,
            dictionary,
            brightness,
            natural_light,
            app_events,
            volume_ids: _,
            event_books,
            issues: _,
        } = scan;
        proof {
            sessions.lemma_view();
        }
        let mut list = sessions.into_sessions();
        resolve_titles(&mut list, books, &event_books);
        let (with_events, orphans) = correlate(
            list,
            &dictionary,
            &brightness,
            &natural_light,
            &app_events,
            tolerance,
        );
        let all = collect_app_events(&with_events, &orphans.app_events);
        let cycles = build_charge_cycles(&with_events, &all);
        let app_start_counts_by_day = count_app_starts_by_day(&all);
        CorrelatedAnalysis { sessions: with_events, orphans, cycles, app_start_counts_by_day }
    }
}

} // verus!
