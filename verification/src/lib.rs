//! Reading-session reconstruction and event correlation for the analytics log
//! of a Kobo e-reader.
//!
//! The library takes the device's event log as plain records, rebuilds the
//! reading sessions, attaches dictionary, light and application events to the
//! session they happened in, and cuts the timeline into charge cycles.
//!
//! A log is read in two steps. [`scan_events`] goes over the rows once; it
//! also says which volumes to look up in the library of the device. With the
//! answers, [`Parser::parse_correlated`] or [`Parser::parse_events`] makes the
//! analysis.

pub mod activity;
pub mod correlate;
pub mod cycles;
pub mod decode;
pub mod error;
pub mod event;
pub mod export;
pub mod json;
pub mod laws;
pub mod model;
pub mod parser;
pub mod reconstruct;
pub mod render;
pub mod seqs;
pub mod statistics;
pub mod terms;
pub mod text;
pub mod time;
pub mod titles;

pub use error::{DecodeError, EventIssue, IssueKind, ParseError, PayloadBlob, PayloadField};
pub use event::{EventKind, RawEvent};
pub use export::{ExportFormat, SessionExportRow};
pub use model::app_event::{AppEvent, AppEventKind};
pub use model::book::{Book, BookEntry};
pub use model::brightness::{Brightness, BrightnessEvent, BrightnessHistory, NaturalLightHistory};
pub use model::correlated::{
    ChargeCycle, ChargeCycleMetrics, CorrelatedAnalysis, CorrelatedSession, OrphanEvents,
};
pub use model::dictionary::DictionaryWord;
pub use model::event_type::EventType;
pub use model::session::{ReadingMetric, ReadingSession, ReadingSessionError, ReadingSessions};
pub use parser::{
    build_event_query, event_types_for_option, EventAnalysis, ParseOption, Parser,
};
pub use reconstruct::{scan_events, EventScan, ScanProgress, TimedDictionaryWord};
pub use render::ExportError;
pub use terms::TermCount;
pub use time::Timestamp;
