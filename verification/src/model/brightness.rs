use crate::seqs::{copy_all, views};
use crate::time::Timestamp;
use vstd::prelude::*;

verus! {

/// A light level and how it was set.
#[derive(Debug)]
pub struct Brightness {
    pub method: String,
    pub percentage: u8,
}

/// A [`Brightness`] with its text as a sequence of characters.
pub struct BrightnessView {
    pub method: Seq<char>,
    pub percentage: u8,
}

impl View for Brightness {
    type V = BrightnessView;

    open spec fn view(&self) -> BrightnessView {
        BrightnessView { method: self.method@, percentage: self.percentage }
    }
}

impl Brightness {
    pub fn new(method: String, percentage: u8) -> (r: Self)
        ensures
            r.method == method,
            r.percentage == percentage,
    {
        Self { method, percentage }
    }
}

impl Clone for Brightness {
    fn clone(&self) -> (r: Self)
        ensures
            r@ == self@,
    {
        Self { method: self.method.clone(), percentage: self.percentage }
    }
}

/// A change of the screen's brightness or of its natural-light setting.
#[derive(Debug)]
pub struct BrightnessEvent {
    pub brightness: Brightness,
    pub timestamp: Timestamp,
}

/// A [`BrightnessEvent`] over the view of its light level.
pub struct BrightnessEventView {
    pub brightness: BrightnessView,
    pub timestamp: Timestamp,
}

impl View for BrightnessEvent {
    type V = BrightnessEventView;

    open spec fn view(&self) -> BrightnessEventView {
        BrightnessEventView { brightness: self.brightness@, timestamp: self.timestamp }
    }
}

impl BrightnessEvent {
    pub fn new(brightness: Brightness, timestamp: Timestamp) -> (r: Self)
        ensures
            r.brightness == brightness,
            r.timestamp == timestamp,
    {
        Self { brightness, timestamp }
    }
}

impl Clone for BrightnessEvent {
    fn clone(&self) -> (r: Self)
        ensures
            r@ == self@,
    {
        Self { brightness: self.brightness.clone(), timestamp: self.timestamp }
    }
}

/// The brightness changes of a log, in the order of the log.
#[derive(Debug)]
pub struct BrightnessHistory {
    pub events: Vec<BrightnessEvent>,
}

impl View for BrightnessHistory {
    type V = Seq<BrightnessEventView>;

    open spec fn view(&self) -> Seq<BrightnessEventView> {
        views(self.events@)
    }
}

impl Default for BrightnessHistory {
    fn default() -> (r: Self)
        ensures
            r.events@.len() == 0,
    {
        Self::new()
    }
}

impl Clone for BrightnessHistory {
    fn clone(&self) -> (r: Self)
        ensures
            r@ == self@,
    {
        Self { events: copy_all(&self.events) }
    }
}

impl BrightnessHistory {
    pub fn new() -> (r: Self)
        ensures
            r.events@.len() == 0,
    {
        Self { events: Vec::new() }
    }

    pub fn insert(&mut self, brightness: BrightnessEvent)
        ensures
            final(self).events@ == old(self).events@.push(brightness),
    {
        self.events.push(brightness);
    }
}

/// The natural-light changes of a log, in the order of the log.
#[derive(Debug)]
pub struct NaturalLightHistory {
    pub events: Vec<BrightnessEvent>,
}

impl View for NaturalLightHistory {
    type V = Seq<BrightnessEventView>;

    open spec fn view(&self) -> Seq<BrightnessEventView> {
        views(self.events@)
    }
}

impl Default for NaturalLightHistory {
    fn default() -> (r: Self)
        ensures
            r.events@.len() == 0,
    {
        Self::new()
    }
}

impl Clone for NaturalLightHistory {
    fn clone(&self) -> (r: Self)
        ensures
            r@ == self@,
    {
        Self { events: copy_all(&self.events) }
    }
}

impl NaturalLightHistory {
    pub fn new() -> (r: Self)
        ensures
            r.events@.len() == 0,
    {
        Self { events: Vec::new() }
    }

    pub fn insert(&mut self, brightness: BrightnessEvent)
        ensures
            final(self).events@ == old(self).events@.push(brightness),
    {
        self.events.push(brightness);
    }
}

} // verus!
