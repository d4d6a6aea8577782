//! What the domain is asked to do, and what comes of it.

use vstd::prelude::*;
use crate::domain::raw_frame::{RawFrame, RawFrameView};
use crate::domain::sensor::{Observation, SensorValue};

verus! {

/// A unit of work. `F` is the type of the query that `GetData` carries: a
/// function from the repository to the events it produces.
pub enum Command<F> {
    /// Replays events that were produced earlier.
    Rejeu(Vec<Event>),
    /// A line that has just been received.
    IncomingData(String),
    /// A query to run against the repository.
    GetData(F),
}

/// What came of a command.
#[derive(Debug)]
pub enum Event {
    /// A sensor has a new value worth recording.
    ValueChanged(SensorValue),
    /// A line was received that no codec recognises.
    UnknownDataReceived(RawFrame),
}

/// The mathematical value of an `Event`.
pub enum EventView {
    ValueChanged(Observation),
    UnknownDataReceived(RawFrameView),
}

impl View for Event {
    type V = EventView;

    open spec fn view(&self) -> EventView {
        match self {
            Event::ValueChanged(value) => EventView::ValueChanged(value@),
            Event::UnknownDataReceived(raw) => EventView::UnknownDataReceived(raw@),
        }
    }
}

impl Clone for Event {
    fn clone(&self) -> (r: Event)
        ensures
            r@ == self@,
    {
        match self {
            Event::ValueChanged(value) => Event::ValueChanged(value.clone()),
            Event::UnknownDataReceived(raw) => Event::UnknownDataReceived(raw.clone()),
        }
    }
}

/// The views of a vector of events.
pub open spec fn event_views(events: Seq<Event>) -> Seq<EventView> {
    events.map_values(|e: Event| e@)
}

} // verus!
