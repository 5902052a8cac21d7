//! The rows of the log as the library takes them.

use crate::seqs::text_view;
use crate::text::text_equals;
use vstd::prelude::*;

verus! {

/// The kind of a log event.
#[derive(Clone, Copy, Debug, PartialEq, Eq, Hash, Structural)]
pub enum EventKind {
    OpenContent,
    LeaveContent,
    DictionaryLookup,
    BrightnessAdjusted,
    NaturalLightAdjusted,
    AppStart,
    PluggedIn,
    /// Any kind that the library does not read.
    Unknown,
}

impl EventKind {
    /// The name of the kind in the `Type` column of the log; none for
    /// [`EventKind::Unknown`].
    pub open spec fn tag_text(self) -> Option<Seq<char>> {
        match self {
            EventKind::OpenContent => Some("OpenContent"@),
            EventKind::LeaveContent => Some("LeaveContent"@),
            EventKind::DictionaryLookup => Some("DictionaryLookup"@),
            EventKind::BrightnessAdjusted => Some("BrightnessAdjusted"@),
            EventKind::NaturalLightAdjusted => Some("NaturalLightAdjusted"@),
            EventKind::AppStart => Some("AppStart"@),
            EventKind::PluggedIn => Some("PluggedIn"@),
            EventKind::Unknown => None,
        }
    }

    /// The kind that a `Type` column names.
    pub open spec fn of_tag(tag: Seq<char>) -> EventKind {
        if tag == "OpenContent"@ {
            EventKind::OpenContent
        } else if tag == "LeaveContent"@ {
            EventKind::LeaveContent
        } else if tag == "DictionaryLookup"@ {
            EventKind::DictionaryLookup
        } else if tag == "BrightnessAdjusted"@ {
            EventKind::BrightnessAdjusted
        } else if tag == "NaturalLightAdjusted"@ {
            EventKind::NaturalLightAdjusted
        } else if tag == "AppStart"@ {
            EventKind::AppStart
        } else if tag == "PluggedIn"@ {
            EventKind::PluggedIn
        } else {
            EventKind::Unknown
        }
    }

    /// The kind that a `Type` column names.
    pub fn from_tag(tag: &str) -> (r: EventKind)
        ensures
            r == EventKind::of_tag(tag@),
    {
        if text_equals(tag, "OpenContent") {
            EventKind::OpenContent
        } else if text_equals(tag, "LeaveContent") {
            EventKind::LeaveContent
        } else if text_equals(tag, "DictionaryLookup") {
            EventKind::DictionaryLookup
        } else if text_equals(tag, "BrightnessAdjusted") {
            EventKind::BrightnessAdjusted
        } else if text_equals(tag, "NaturalLightAdjusted") {
            EventKind::NaturalLightAdjusted
        } else if text_equals(tag, "AppStart") {
            EventKind::AppStart
        } else if text_equals(tag, "PluggedIn") {
            EventKind::PluggedIn
        } else {
            EventKind::Unknown
        }
    }

    /// The name of the kind in the `Type` column of the log.
    pub fn tag(&self) -> (r: Option<&'static str>)
        ensures
            match r {
                Some(tag) => self.tag_text() == Some(tag@),
                None => self.tag_text() is None,
            },
    {
        match self {
            EventKind::OpenContent => Some("OpenContent"),
            EventKind::LeaveContent => Some("LeaveContent"),
            EventKind::DictionaryLookup => Some("DictionaryLookup"),
            EventKind::BrightnessAdjusted => Some("BrightnessAdjusted"),
            EventKind::NaturalLightAdjusted => Some("NaturalLightAdjusted"),
            EventKind::AppStart => Some("AppStart"),
            EventKind::PluggedIn => Some("PluggedIn"),
            EventKind::Unknown => None,
        }
    }
}

/// One row of the log, as read from its source.
#[derive(Debug)]
pub struct RawEvent {
    /// The identifier of the row.
    pub id: String,
    pub kind: EventKind,
    /// The instant of the event in RFC 3339.
    pub timestamp: String,
    /// The `Attributes` payload: JSON text, where the row has any.
    pub attributes: Option<String>,
    /// The `Metrics` payload: JSON text, where the row has any.
    pub metrics: Option<String>,
}

/// A [`RawEvent`] with its texts as sequences of characters.
pub struct RawEventView {
    pub id: Seq<char>,
    pub kind: EventKind,
    pub timestamp: Seq<char>,
    pub attributes: Option<Seq<char>>,
    pub metrics: Option<Seq<char>>,
}

impl View for RawEvent {
    type V = RawEventView;

    open spec fn view(&self) -> RawEventView {
        RawEventView {
            id: self.id@,
            kind: self.kind,
            timestamp: self.timestamp@,
            attributes: text_view(self.attributes),
            metrics: text_view(self.metrics),
        }
    }
}

impl RawEvent {
    /// A row from its five columns; `kind` is the text of the `Type` column.
    pub fn new(
        id: String,
        kind: &str,
        timestamp: String,
        attributes: Option<String>,
        metrics: Option<String>,
    ) -> (r: Self)
        ensures
            r@ == (RawEventView {
                id: id@,
                kind: EventKind::of_tag(kind@),
                timestamp: timestamp@,
                attributes: text_view(attributes),
                metrics: text_view(metrics),
            }),
    {
        Self { id, kind: EventKind::from_tag(kind), timestamp, attributes, metrics }
    }
}

} // verus!
