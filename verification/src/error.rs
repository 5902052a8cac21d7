//! What can go wrong with a single event of the log.

use vstd::prelude::*;

verus! {

/// One of the two payloads of a log row.
#[derive(Clone, Copy, Debug, PartialEq, Eq, Structural)]
pub enum PayloadBlob {
    Attributes,
    Metrics,
}

/// A member of a payload that a shape reads.
#[derive(Clone, Copy, Debug, PartialEq, Eq, Structural)]
pub enum PayloadField {
    /// `progress`: the reading progress in percent, as text.
    Progress,
    /// `volumeid`: the identifier of the book.
    VolumeId,
    /// `title`: the title of the book.
    Title,
    /// `attribution`: the author of the book.
    Attribution,
    /// `ButtonPressCount`.
    ButtonPressCount,
    /// `SecondsRead`.
    SecondsRead,
    /// `PagesTurned`.
    PagesTurned,
    /// `Method`: how a light level was set.
    Method,
    /// The new light level, under `NewBrightness`, `NewNaturalLight` or
    /// `new_light`.
    NewLight,
    /// `Dictionary`: the language of a dictionary.
    Dictionary,
    /// `Word`: the word that was looked up.
    Word,
}

/// Why the payloads of one event could not be decoded.
#[derive(Clone, Copy, Debug, PartialEq, Eq, Structural)]
pub enum DecodeError {
    /// The timestamp is no instant.
    Timestamp,
    /// The event needs the payload and the row has none.
    MissingBlob(PayloadBlob),
    /// The payload is not JSON.
    MalformedBlob(PayloadBlob),
    /// The payload lacks a member that the shape requires.
    MissingField(PayloadField),
    /// The member holds a value of another kind, or one out of range.
    InvalidField(PayloadField),
    /// The member stands in the payload under more than one of its names.
    RepeatedField(PayloadField),
}

/// Why an event took no part in the reconstruction of sessions.
#[derive(Clone, Copy, Debug, PartialEq, Eq, Structural)]
pub enum ParseError {
    /// The event is of a kind that has no place where it stands. The passes
    /// over a log never give this error: they pass such an event over.
    InvalidEventType,
    /// A leave event met no open session, or its values cannot complete the
    /// open one.
    SessionCompletionFailed,
    /// A payload of the event could not be decoded.
    DeserializationError,
}

impl ParseError {
    pub open spec fn message_text(self) -> Seq<char> {
        match self {
            ParseError::InvalidEventType => "Event is not valid"@,
            ParseError::SessionCompletionFailed => "Error during session completation"@,
            ParseError::DeserializationError => "Error during deserialize"@,
        }
    }

    /// The error in words.
    pub fn message(&self) -> (r: &'static str)
        ensures
            r@ == self.message_text(),
    {
        match self {
            ParseError::InvalidEventType => "Event is not valid",
            ParseError::SessionCompletionFailed => "Error during session completation",
            ParseError::DeserializationError => "Error during deserialize",
        }
    }
}

/// What the scan of the log has to say about one event that it passed over.
#[derive(Clone, Copy, Debug, PartialEq, Eq, Structural)]
pub enum IssueKind {
    /// The timestamp or a payload could not be decoded.
    Decode(DecodeError),
    /// A leave event came while no session was open, or its values cannot
    /// complete the open session.
    Sequence,
    /// The kind of the event is not one that the library reads.
    UnknownKind,
}

impl IssueKind {
    /// The error that the issue is; none for an event of unknown kind, which
    /// is reported and is no error.
    pub open spec fn class(self) -> Option<ParseError> {
        match self {
            IssueKind::Decode(_) => Some(ParseError::DeserializationError),
            IssueKind::Sequence => Some(ParseError::SessionCompletionFailed),
            IssueKind::UnknownKind => None,
        }
    }

    /// The error that the issue is; none for an event of unknown kind.
    pub fn error(&self) -> (r: Option<ParseError>)
        ensures
            r == self.class(),
    {
        match self {
            IssueKind::Decode(_) => Some(ParseError::DeserializationError),
            IssueKind::Sequence => Some(ParseError::SessionCompletionFailed),
            IssueKind::UnknownKind => None,
        }
    }
}

/// An event that the scan passed over: its place in the log, and why.
#[derive(Clone, Copy, Debug, PartialEq, Eq, Structural)]
pub struct EventIssue {
    pub index: usize,
    pub kind: IssueKind,
}

} // verus!
