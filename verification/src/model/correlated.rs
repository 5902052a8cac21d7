use crate::model::app_event::{AppEvent, AppEventView};
use crate::model::brightness::{BrightnessEvent, BrightnessEventView};
use crate::model::dictionary::{DictionaryWord, DictionaryWordView};
use crate::model::session::{ReadingSession, ReadingSessionView};
use crate::seqs::{copy_all, views};
use crate::time::Timestamp;
use std::collections::HashMap;
use vstd::prelude::*;

verus! {

/// A completed reading session with the events that happened in it.
#[derive(Debug)]
pub struct CorrelatedSession {
    pub session: ReadingSession,
    pub dictionary: Vec<DictionaryWord>,
    pub brightness: Vec<BrightnessEvent>,
    pub natural_light: Vec<BrightnessEvent>,
    pub app_events: Vec<AppEvent>,
}

/// A [`CorrelatedSession`] over the views of its records.
pub struct CorrelatedSessionView {
    pub session: ReadingSessionView,
    pub dictionary: Seq<DictionaryWordView>,
    pub brightness: Seq<BrightnessEventView>,
    pub natural_light: Seq<BrightnessEventView>,
    pub app_events: Seq<AppEventView>,
}

impl View for CorrelatedSession {
    type V = CorrelatedSessionView;

    open spec fn view(&self) -> CorrelatedSessionView {
        CorrelatedSessionView {
            session: self.session@,
            dictionary: views(self.dictionary@),
            brightness: views(self.brightness@),
            natural_light: views(self.natural_light@),
            app_events: views(self.app_events@),
        }
    }
}

impl CorrelatedSessionView {
    /// The session with no event attached.
    pub open spec fn bare(session: ReadingSessionView) -> CorrelatedSessionView {
        CorrelatedSessionView {
            session,
            dictionary: Seq::empty(),
            brightness: Seq::empty(),
            natural_light: Seq::empty(),
            app_events: Seq::empty(),
        }
    }
}

impl CorrelatedSession {
    pub fn new(session: ReadingSession) -> (r: Self)
        ensures
            r.session == session,
            r@ == CorrelatedSessionView::bare(session@),
    {
        let r = Self {
            session,
            dictionary: Vec::new(),
            brightness: Vec::new(),
            natural_light: Vec::new(),
            app_events: Vec::new(),
        };
        assert(r@.dictionary =~= Seq::empty());
        assert(r@.brightness =~= Seq::empty());
        assert(r@.natural_light =~= Seq::empty());
        assert(r@.app_events =~= Seq::empty());
        r
    }
}

impl Clone for CorrelatedSession {
    fn clone(&self) -> (r: Self)
        ensures
            r@ == self@,
    {
        Self {
            session: self.session.clone(),
            dictionary: copy_all(&self.dictionary),
            brightness: copy_all(&self.brightness),
            natural_light: copy_all(&self.natural_light),
            app_events: copy_all(&self.app_events),
        }
    }
}

/// The events that happened in no session.
#[derive(Debug)]
pub struct OrphanEvents {
    pub dictionary: Vec<DictionaryWord>,
    pub brightness: Vec<BrightnessEvent>,
    pub natural_light: Vec<BrightnessEvent>,
    pub app_events: Vec<AppEvent>,
}

impl Default for OrphanEvents {
    fn default() -> (r: Self)
        ensures
            r@ == (OrphanEventsView {
                dictionary: Seq::empty(),
                brightness: Seq::empty(),
                natural_light: Seq::empty(),
                app_events: Seq::empty(),
            }),
    {
        let r = Self {
            dictionary: Vec::new(),
            brightness: Vec::new(),
            natural_light: Vec::new(),
            app_events: Vec::new(),
        };
        assert(r@.dictionary =~= Seq::empty());
        assert(r@.brightness =~= Seq::empty());
        assert(r@.natural_light =~= Seq::empty());
        assert(r@.app_events =~= Seq::empty());
        r
    }
}

impl Clone for OrphanEvents {
    fn clone(&self) -> (r: Self)
        ensures
            r@ == self@,
    {
        Self {
            dictionary: copy_all(&self.dictionary),
            brightness: copy_all(&self.brightness),
            natural_light: copy_all(&self.natural_light),
            app_events: copy_all(&self.app_events),
        }
    }
}

/// [`OrphanEvents`] over the views of its records.
pub struct OrphanEventsView {
    pub dictionary: Seq<DictionaryWordView>,
    pub brightness: Seq<BrightnessEventView>,
    pub natural_light: Seq<BrightnessEventView>,
    pub app_events: Seq<AppEventView>,
}

impl View for OrphanEvents {
    type V = OrphanEventsView;

    open spec fn view(&self) -> OrphanEventsView {
        OrphanEventsView {
            dictionary: views(self.dictionary@),
            brightness: views(self.brightness@),
            natural_light: views(self.natural_light@),
            app_events: views(self.app_events@),
        }
    }
}

/// What was read and done between two chargings of the device.
#[derive(Clone, Copy, Debug, PartialEq, Eq, Structural)]
pub struct ChargeCycleMetrics {
    pub total_seconds_read: u64,
    pub total_pages: u64,
    pub total_button_presses: u64,
    pub dictionary_lookups: usize,
    pub brightness_events: usize,
    pub app_starts: usize,
}

impl Default for ChargeCycleMetrics {
    fn default() -> (r: Self)
        ensures
            r == (ChargeCycleMetrics {
                total_seconds_read: 0,
                total_pages: 0,
                total_button_presses: 0,
                dictionary_lookups: 0,
                brightness_events: 0,
                app_starts: 0,
            }),
    {
        ChargeCycleMetrics {
            total_seconds_read: 0,
            total_pages: 0,
            total_button_presses: 0,
            dictionary_lookups: 0,
            brightness_events: 0,
            app_starts: 0,
        }
    }
}

/// The time from one plugging-in of the device to the next, with the sessions
/// and the application events that began in it.
#[derive(Debug)]
pub struct ChargeCycle {
    pub start: Timestamp,
    /// The next plugging-in; none for the last cycle, which has no end.
    pub end: Option<Timestamp>,
    pub sessions: Vec<CorrelatedSession>,
    pub app_events: Vec<AppEvent>,
    pub metrics: ChargeCycleMetrics,
}

impl Clone for ChargeCycle {
    fn clone(&self) -> (r: Self)
        ensures
            r@ == self@,
    {
        Self {
            start: self.start,
            end: self.end,
            sessions: copy_all(&self.sessions),
            app_events: copy_all(&self.app_events),
            metrics: self.metrics,
        }
    }
}

/// A [`ChargeCycle`] over the views of its records.
pub struct ChargeCycleView {
    pub start: Timestamp,
    pub end: Option<Timestamp>,
    pub sessions: Seq<CorrelatedSessionView>,
    pub app_events: Seq<AppEventView>,
    pub metrics: ChargeCycleMetrics,
}

impl View for ChargeCycle {
    type V = ChargeCycleView;

    open spec fn view(&self) -> ChargeCycleView {
        ChargeCycleView {
            start: self.start,
            end: self.end,
            sessions: views(self.sessions@),
            app_events: views(self.app_events@),
            metrics: self.metrics,
        }
    }
}

/// The whole of what a log says: the sessions with their events, the events of
/// no session, the charge cycles, and for each calendar day (in days since
/// 1970-01-01) on which the application was started, how often.
#[derive(Debug)]
pub struct CorrelatedAnalysis {
    pub sessions: Vec<CorrelatedSession>,
    pub orphans: OrphanEvents,
    pub cycles: Vec<ChargeCycle>,
    pub app_start_counts_by_day: HashMap<i64, usize>,
}

/// A [`CorrelatedAnalysis`] over the views of its records.
pub struct CorrelatedAnalysisView {
    pub sessions: Seq<CorrelatedSessionView>,
    pub orphans: OrphanEventsView,
    pub cycles: Seq<ChargeCycleView>,
    pub app_start_counts_by_day: Map<i64, usize>,
}

impl View for CorrelatedAnalysis {
    type V = CorrelatedAnalysisView;

    open spec fn view(&self) -> CorrelatedAnalysisView {
        CorrelatedAnalysisView {
            sessions: views(self.sessions@),
            orphans: self.orphans@,
            cycles: views(self.cycles@),
            app_start_counts_by_day: self.app_start_counts_by_day@,
        }
    }
}

} // verus!
