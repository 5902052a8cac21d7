use crate::seqs::{copy_text, text_view};
use crate::time::Timestamp;
use vstd::prelude::*;

verus! {

/// What an application event reports.
#[derive(Clone, Copy, Debug, PartialEq, Eq, Hash, Structural)]
pub enum AppEventKind {
    /// The reading application was started.
    AppStart,
    /// The device was connected to power.
    PluggedIn,
}

/// An application lifecycle event of the device.
#[derive(Debug)]
pub struct AppEvent {
    pub kind: AppEventKind,
    pub timestamp: Timestamp,
    /// The event's attributes as JSON text, where the log row had any.
    pub attributes: Option<String>,
}

/// An [`AppEvent`] with its text as a sequence of characters.
pub struct AppEventView {
    pub kind: AppEventKind,
    pub timestamp: Timestamp,
    pub attributes: Option<Seq<char>>,
}

impl View for AppEvent {
    type V = AppEventView;

    open spec fn view(&self) -> AppEventView {
        AppEventView {
            kind: self.kind,
            timestamp: self.timestamp,
            attributes: text_view(self.attributes),
        }
    }
}

impl AppEvent {
    pub fn new(kind: AppEventKind, timestamp: Timestamp, attributes: Option<String>) -> (r: Self)
        ensures
            r.kind == kind,
            r.timestamp == timestamp,
            r.attributes == attributes,
    {
        Self { kind, timestamp, attributes }
    }
}

impl Clone for AppEvent {
    fn clone(&self) -> (r: Self)
        ensures
            r@ == self@,
    {
        Self {
            kind: self.kind,
            timestamp: self.timestamp,
            attributes: copy_text(&self.attributes),
        }
    }
}

} // verus!
